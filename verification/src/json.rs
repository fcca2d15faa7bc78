//! A small JSON model: a value tree, a verified renderer, and a trusted
//! parser resting on serde_json.
//!
//! Numbers are carried as 64-bit integers: every numeric field this API
//! sends or receives is one. Parsing a body whose numbers do not fit
//! that shape fails.

use vstd::prelude::*;

use crate::text::push_char;
use crate::text::str_eq;
use crate::text::push_i64;
use crate::text::push_u64_digits;
use crate::text::spec_digit_char;
use crate::text::spec_digits;
use crate::text::spec_signed_digits;

verus! {

/// A JSON value. Objects keep their members in order; keys are unique
/// when the value came from the parser.
#[derive(Debug, PartialEq)]
pub enum JsonValue {
    Null,
    Bool(bool),
    Int(i64),
    Str(String),
    /// A number carried in thousandths, written with a decimal point:
    /// `1000` goes on the wire as `1.0`.
    Milli(u32),
    Arr(Vec<JsonValue>),
    Obj(Vec<(String, JsonValue)>),
}

/// The lower-case hex digit for `d`.
pub open spec fn spec_hex_digit(d: int) -> char {
    if d < 10 {
        ((48 + d) as u8) as char
    } else {
        ((87 + d) as u8) as char
    }
}

/// How one character is written inside a JSON string: itself, a short
/// escape, or a `\u00..` escape for other control characters.
pub open spec fn spec_escape_char(c: char) -> Seq<char> {
    if c == '"' {
        seq!['\\', '"']
    } else if c == '\\' {
        seq!['\\', '\\']
    } else if c == '\n' {
        seq!['\\', 'n']
    } else if c == '\r' {
        seq!['\\', 'r']
    } else if c == '\t' {
        seq!['\\', 't']
    } else if c == '\u{8}' {
        seq!['\\', 'b']
    } else if c == '\u{c}' {
        seq!['\\', 'f']
    } else if (c as u32) < 0x20 {
        seq!['\\', 'u', '0', '0', spec_hex_digit((c as u32) as int / 16), spec_hex_digit(
            (c as u32) as int % 16,
        )]
    } else {
        seq![c]
    }
}

/// A number in thousandths as it is written: the whole part, a decimal
/// point, then one to three fraction digits with trailing zeros
/// dropped.
pub open spec fn spec_milli_text(m: int) -> Seq<char> {
    let whole = spec_digits(m / 1000);
    let f = m % 1000;
    if f == 0 {
        whole + seq!['.', '0']
    } else if f % 100 == 0 {
        whole + seq!['.', spec_digit_char(f / 100)]
    } else if f % 10 == 0 {
        whole + seq!['.', spec_digit_char(f / 100), spec_digit_char((f / 10) % 10)]
    } else {
        whole + seq!['.', spec_digit_char(f / 100), spec_digit_char((f / 10) % 10), spec_digit_char(
            f % 10,
        )]
    }
}

/// The body of a JSON string: every character escaped as needed.
pub open spec fn spec_escape(s: Seq<char>) -> Seq<char>
    decreases s.len(),
{
    if s.len() == 0 {
        Seq::<char>::empty()
    } else {
        spec_escape(s.drop_last()) + spec_escape_char(s.last())
    }
}

/// A JSON string: the escaped body between double quotes.
pub open spec fn spec_render_string(s: Seq<char>) -> Seq<char> {
    seq!['"'] + spec_escape(s) + seq!['"']
}

/// The rendering of a JSON value, with no whitespace between tokens.
pub open spec fn spec_render(v: JsonValue) -> Seq<char>
    decreases v,
{
    match v {
        JsonValue::Null => "null"@,
        JsonValue::Bool(b) => if b {
            "true"@
        } else {
            "false"@
        },
        JsonValue::Int(i) => spec_signed_digits(i as int),
        JsonValue::Str(s) => spec_render_string(s@),
        JsonValue::Milli(m) => spec_milli_text(m as int),
        JsonValue::Arr(items) => seq!['['] + spec_render_items(items@) + seq![']'],
        JsonValue::Obj(members) => seq!['{'] + spec_render_members(members@) + seq!['}'],
    }
}

/// Array elements, comma-separated.
pub open spec fn spec_render_items(items: Seq<JsonValue>) -> Seq<char>
    decreases items,
{
    if items.len() == 0 {
        Seq::<char>::empty()
    } else if items.len() == 1 {
        spec_render(items[0])
    } else {
        spec_render_items(items.drop_last()) + seq![','] + spec_render(items.last())
    }
}

/// Object members, comma-separated, each a key, a colon and a value.
pub open spec fn spec_render_members(members: Seq<(String, JsonValue)>) -> Seq<char>
    decreases members,
{
    if members.len() == 0 {
        Seq::<char>::empty()
    } else if members.len() == 1 {
        spec_render_string(members[0].0@) + seq![':'] + spec_render(members[0].1)
    } else {
        spec_render_members(members.drop_last()) + seq![','] + spec_render_string(
            members.last().0@,
        ) + seq![':'] + spec_render(members.last().1)
    }
}

/// Appends one character of a JSON string body, escaped as the spec
/// says.
fn push_escaped_char(c: char, out: &mut String)
    ensures
        final(out)@ == old(out)@ + spec_escape_char(c),
{
    if c == '"' {
        push_char(out, '\\');
        push_char(out, '"');
    } else if c == '\\' {
        push_char(out, '\\');
        push_char(out, '\\');
    } else if c == '\n' {
        push_char(out, '\\');
        push_char(out, 'n');
    } else if c == '\r' {
        push_char(out, '\\');
        push_char(out, 'r');
    } else if c == '\t' {
        push_char(out, '\\');
        push_char(out, 't');
    } else if c == '\u{8}' {
        push_char(out, '\\');
        push_char(out, 'b');
    } else if c == '\u{c}' {
        push_char(out, '\\');
        push_char(out, 'f');
    } else if (c as u32) < 0x20 {
        let n = c as u32;
        push_char(out, '\\');
        push_char(out, 'u');
        push_char(out, '0');
        push_char(out, '0');
        let hi = (n / 16) as u8;
        let lo = (n % 16) as u8;
        push_char(out, if hi < 10 { (48u8 + hi) as char } else { (87u8 + hi) as char });
        push_char(out, if lo < 10 { (48u8 + lo) as char } else { (87u8 + lo) as char });
    } else {
        push_char(out, c);
    }
    proof {
        assert(out@ =~= old(out)@ + spec_escape_char(c));
    }
}

/// Appends a JSON string: quotes around the escaped text.
pub fn push_json_string(s: &str, out: &mut String)
    ensures
        final(out)@ == old(out)@ + spec_render_string(s@),
{
    push_char(out, '"');
    let n = s.unicode_len();
    proof {
        assert(spec_escape(s@.subrange(0, 0)) =~= Seq::<char>::empty());
    }
    for i in 0..n
        invariant
            n == s@.len(),
            out@ == old(out)@ + seq!['"'] + spec_escape(s@.subrange(0, i as int)),
    {
        proof {
            assert(s@.subrange(0, i + 1).drop_last() =~= s@.subrange(0, i as int));
            assert(s@.subrange(0, i + 1).last() == s@[i as int]);
        }
        push_escaped_char(s.get_char(i), out);
    }
    push_char(out, '"');
    proof {
        assert(s@.subrange(0, n as int) =~= s@);
        assert(out@ =~= old(out)@ + spec_render_string(s@));
    }
}

/// Appends a number in thousandths: whole part, decimal point, and the
/// fraction digits that are not trailing zeros.
pub fn push_milli(m: u32, out: &mut String)
    ensures
        final(out)@ == old(out)@ + spec_milli_text(m as int),
{
    push_u64_digits((m / 1000) as u64, out);
    push_char(out, '.');
    let f = m % 1000;
    if f == 0 {
        push_char(out, '0');
    } else {
        push_char(out, (48u8 + ((f / 100) as u8)) as char);
        if f % 100 != 0 {
            push_char(out, (48u8 + (((f / 10) % 10) as u8)) as char);
            if f % 10 != 0 {
                push_char(out, (48u8 + ((f % 10) as u8)) as char);
            }
        }
    }
    proof {
        assert(out@ =~= old(out)@ + spec_milli_text(m as int));
    }
}

/// Appends the rendering of `v` to `out`.
#[verifier::loop_isolation(false)]
#[verifier::rlimit(60)]
pub fn render_json(v: &JsonValue, out: &mut String)
    ensures
        final(out)@ == old(out)@ + spec_render(*v),
    decreases *v,
{
    match v {
        JsonValue::Null => {
            out.append("null");
        },
        JsonValue::Bool(b) => {
            if *b {
                out.append("true");
            } else {
                out.append("false");
            }
        },
        JsonValue::Int(i) => {
            push_i64(*i, out);
        },
        JsonValue::Str(s) => {
            push_json_string(s.as_str(), out);
        },
        JsonValue::Milli(m) => {
            push_milli(*m, out);
        },
        JsonValue::Arr(items) => {
            push_char(out, '[');
            let n = items.len();
            proof {
                assert(spec_render_items(items@.subrange(0, 0)) =~= Seq::<char>::empty());
            }
            for i in 0..n
                invariant
                    n == items@.len(),
                    out@ == old(out)@ + seq!['['] + spec_render_items(items@.subrange(0, i as int)),
            {
                if i > 0 {
                    push_char(out, ',');
                }
                proof {
                    assert(v->Arr_0 == *items);
                    assert(decreases_to!(*v => v->Arr_0));
                    assert(decreases_to!(v->Arr_0 => v->Arr_0@));
                    assert(decreases_to!(v->Arr_0@ => v->Arr_0@[i as int]));
                    assert(decreases_to!(*v => items@[i as int]));
                    assert(items@.subrange(0, i + 1).drop_last() =~= items@.subrange(0, i as int));
                    assert(items@.subrange(0, i + 1).last() == items@[i as int]);
                    assert(items@.subrange(0, 1)[0] == items@[0]);
                }
                render_json(&items[i], out);
                proof {
                    assert(out@ =~= old(out)@ + seq!['['] + spec_render_items(
                        items@.subrange(0, i + 1),
                    ));
                }
            }
            push_char(out, ']');
            proof {
                assert(items@.subrange(0, n as int) =~= items@);
                assert(out@ =~= old(out)@ + spec_render(*v));
            }
        },
        JsonValue::Obj(members) => {
            push_char(out, '{');
            let n = members.len();
            proof {
                assert(spec_render_members(members@.subrange(0, 0)) =~= Seq::<char>::empty());
            }
            for i in 0..n
                invariant
                    n == members@.len(),
                    out@ == old(out)@ + seq!['{'] + spec_render_members(
                        members@.subrange(0, i as int),
                    ),
            {
                if i > 0 {
                    push_char(out, ',');
                }
                push_json_string(members[i].0.as_str(), out);
                push_char(out, ':');
                proof {
                    assert(v->Obj_0 == *members);
                    assert(decreases_to!(*v => v->Obj_0));
                    assert(decreases_to!(v->Obj_0 => v->Obj_0@));
                    assert(decreases_to!(v->Obj_0@ => v->Obj_0@[i as int]));
                    assert(decreases_to!(v->Obj_0@[i as int] => v->Obj_0@[i as int].1));
                    assert(decreases_to!(*v => members@[i as int].1));
                    assert(members@.subrange(0, i + 1).drop_last() =~= members@.subrange(
                        0,
                        i as int,
                    ));
                    assert(members@.subrange(0, i + 1).last() == members@[i as int]);
                    assert(members@.subrange(0, 1)[0] == members@[0]);
                }
                render_json(&members[i].1, out);
                proof {
                    assert(out@ =~= old(out)@ + seq!['{'] + spec_render_members(
                        members@.subrange(0, i + 1),
                    ));
                }
            }
            push_char(out, '}');
            proof {
                assert(members@.subrange(0, n as int) =~= members@);
                assert(out@ =~= old(out)@ + spec_render(*v));
            }
        },
    }
}

/// The rendering of `v` as a fresh string.
pub fn json_to_string(v: &JsonValue) -> (r: String)
    ensures
        r@ == spec_render(*v),
{
    let mut out = String::new();
    render_json(v, &mut out);
    proof {
        assert(Seq::<char>::empty() + spec_render(*v) =~= spec_render(*v));
    }
    out
}

/// Comma-separated already-rendered texts.
pub open spec fn spec_items_text(texts: Seq<Seq<char>>) -> Seq<char>
    decreases texts.len(),
{
    if texts.len() == 0 {
        Seq::<char>::empty()
    } else if texts.len() == 1 {
        texts[0]
    } else {
        spec_items_text(texts.drop_last()) + seq![','] + texts.last()
    }
}

/// Comma-separated members, each a rendered key, a colon, and an
/// already-rendered value text.
pub open spec fn spec_members_text(kvs: Seq<(Seq<char>, Seq<char>)>) -> Seq<char>
    decreases kvs.len(),
{
    if kvs.len() == 0 {
        Seq::<char>::empty()
    } else if kvs.len() == 1 {
        spec_render_string(kvs[0].0) + seq![':'] + kvs[0].1
    } else {
        spec_members_text(kvs.drop_last()) + seq![','] + spec_render_string(kvs.last().0)
            + seq![':'] + kvs.last().1
    }
}

/// An array around already-rendered texts.
pub open spec fn spec_arr_text(texts: Seq<Seq<char>>) -> Seq<char> {
    seq!['['] + spec_items_text(texts) + seq![']']
}

/// An object around keys and already-rendered value texts.
pub open spec fn spec_obj_text(kvs: Seq<(Seq<char>, Seq<char>)>) -> Seq<char> {
    seq!['{'] + spec_members_text(kvs) + seq!['}']
}

/// An array of values whose renderings are `texts` renders as the array
/// around `texts`.
pub proof fn lemma_render_items(items: Seq<JsonValue>, texts: Seq<Seq<char>>)
    requires
        items.len() == texts.len(),
        forall|i: int| 0 <= i < items.len() ==> spec_render(#[trigger] items[i]) == texts[i],
    ensures
        spec_render_items(items) == spec_items_text(texts),
    decreases items.len(),
{
    if items.len() > 1 {
        lemma_render_items(items.drop_last(), texts.drop_last());
    }
}

/// An object of members whose keys and value renderings are `kvs`
/// renders as the object around `kvs`.
pub proof fn lemma_render_members(members: Seq<(String, JsonValue)>, kvs: Seq<(Seq<char>, Seq<char>)>)
    requires
        members.len() == kvs.len(),
        forall|i: int| 0 <= i < members.len() ==> (#[trigger] members[i]).0@ == kvs[i].0
            && spec_render(members[i].1) == kvs[i].1,
    ensures
        spec_render_members(members) == spec_members_text(kvs),
    decreases members.len(),
{
    if members.len() > 1 {
        lemma_render_members(members.drop_last(), kvs.drop_last());
    }
}

/// What the trusted parser returns for given bytes: the outcome depends
/// on the bytes alone.
pub uninterp spec fn spec_json_parse(bytes: Seq<u8>) -> Option<JsonValue>;

#[verifier::external_type_specification]
#[verifier::external_body]
pub struct ExSerdeValue(serde_json::Value);

/// Turns serde_json's tree into the library's own, one node for one
/// node; fails on a number that is not a 64-bit integer.
#[verifier::external_body]
fn convert_value(v: &serde_json::Value) -> Option<JsonValue> {
    match v {
        serde_json::Value::Null => Some(JsonValue::Null),
        serde_json::Value::Bool(b) => Some(JsonValue::Bool(*b)),
        serde_json::Value::Number(n) => n.as_i64().map(JsonValue::Int),
        serde_json::Value::String(s) => Some(JsonValue::Str(s.clone())),
        serde_json::Value::Array(items) => items.iter().map(convert_value).collect::<Option<
            Vec<JsonValue>,
        >>().map(JsonValue::Arr),
        serde_json::Value::Object(members) => members.iter().map(
            |(k, x)| Some((k.clone(), convert_value(x)?)),
        ).collect::<Option<Vec<(String, JsonValue)>>>().map(JsonValue::Obj),
    }
}

/// Relies on serde_json::from_slice: parses the bytes as one JSON
/// document, whose value is determined by the bytes alone. An error
/// carries serde_json's message; a number that is not a 64-bit integer
/// is an error too.
#[verifier::external_body]
pub fn parse_json(bytes: &[u8]) -> (r: Result<JsonValue, String>)
    ensures
        r is Ok <==> spec_json_parse(bytes@) is Some,
        r matches Ok(v) ==> spec_json_parse(bytes@) == Some(v),
{
    match serde_json::from_slice::<serde_json::Value>(bytes) {
        Ok(v) => match convert_value(&v) {
            Some(j) => Ok(j),
            None => Err(String::from("number out of 64-bit integer range")),
        },
        Err(e) => Err(e.to_string()),
    }
}

/// The value under `key` among `members`: the first member whose key
/// matches, if any.
pub open spec fn spec_obj_get(members: Seq<(String, JsonValue)>, key: Seq<char>) -> Option<
    JsonValue,
>
    decreases members.len(),
{
    if members.len() == 0 {
        None
    } else if members[0].0@ == key {
        Some(members[0].1)
    } else {
        spec_obj_get(members.drop_first(), key)
    }
}

impl JsonValue {
    /// The value under `key` where `self` is an object holding it.
    pub open spec fn spec_get(self, key: Seq<char>) -> Option<JsonValue> {
        match self {
            JsonValue::Obj(members) => spec_obj_get(members@, key),
            _ => None,
        }
    }

    /// Looks `key` up: the first member under it where `self` is an
    /// object, `None` otherwise.
    #[verifier::loop_isolation(false)]
    pub fn get<'a>(&'a self, key: &str) -> (r: Option<&'a JsonValue>)
        ensures
            match r {
                Some(v) => self.spec_get(key@) == Some(*v),
                None => self.spec_get(key@) is None,
            },
    {
        match self {
            JsonValue::Obj(members) => {
                let n = members.len();
                proof {
                    assert(members@.skip(0) =~= members@);
                }
                for i in 0..n
                    invariant
                        spec_obj_get(members@, key@) == spec_obj_get(
                            members@.skip(i as int),
                            key@,
                        ),
                {
                    proof {
                        assert(members@.skip(i as int)[0] == members@[i as int]);
                        assert(members@.skip(i as int).drop_first() =~= members@.skip(i + 1));
                    }
                    if str_eq(members[i].0.as_str(), key) {
                        return Some(&members[i].1);
                    }
                }
                proof {
                    assert(members@.skip(n as int) =~= Seq::<(String, JsonValue)>::empty());
                }
                None
            },
            _ => None,
        }
    }

    /// The held text where `self` is a JSON string.
    pub fn as_str(&self) -> (r: Option<&String>)
        ensures
            match r {
                Some(s) => self matches JsonValue::Str(t) && t == *s,
                None => !(self matches JsonValue::Str(_)),
            },
    {
        match self {
            JsonValue::Str(s) => Some(s),
            _ => None,
        }
    }

    /// The held number where `self` is a JSON integer.
    pub fn as_i64(&self) -> (r: Option<i64>)
        ensures
            match r {
                Some(n) => self matches JsonValue::Int(m) && m == n,
                None => !(self matches JsonValue::Int(_)),
            },
    {
        match self {
            JsonValue::Int(n) => Some(*n),
            _ => None,
        }
    }

    /// The held elements where `self` is a JSON array.
    pub fn as_arr(&self) -> (r: Option<&Vec<JsonValue>>)
        ensures
            match r {
                Some(items) => self matches JsonValue::Arr(v) && v == *items,
                None => !(self matches JsonValue::Arr(_)),
            },
    {
        match self {
            JsonValue::Arr(items) => Some(items),
            _ => None,
        }
    }
}

} // verus!
