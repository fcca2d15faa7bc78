//! Small text helpers: pushing a character, rendering decimal numbers,
//! and comparing strings lexicographically.

use vstd::prelude::*;

verus! {

/// Relies on String::push: appends one character to the string.
#[verifier::external_body]
pub fn push_char(s: &mut String, c: char)
    ensures
        final(s)@ == old(s)@.push(c),
{
    s.push(c);
}

/// The character for one decimal digit.
pub open spec fn spec_digit_char(d: int) -> char {
    ((48 + d) as u8) as char
}

/// The decimal digits of `n`, most significant first.
pub open spec fn spec_digits(n: int) -> Seq<char>
    decreases n,
{
    if n < 10 {
        seq![spec_digit_char(n)]
    } else {
        spec_digits(n / 10).push(spec_digit_char(n % 10))
    }
}

/// The decimal rendering of a signed number: a minus sign where it is
/// negative, then its digits.
pub open spec fn spec_signed_digits(n: int) -> Seq<char> {
    if n < 0 {
        seq!['-'] + spec_digits(-n)
    } else {
        spec_digits(n)
    }
}

/// Appends the decimal digits of `n` to `out`.
pub fn push_u64_digits(n: u64, out: &mut String)
    ensures
        final(out)@ == old(out)@ + spec_digits(n as int),
    decreases n,
{
    if n < 10 {
        push_char(out, (48u8 + (n as u8)) as char);
        proof {
            assert(old(out)@ + spec_digits(n as int) =~= out@);
        }
    } else {
        push_u64_digits(n / 10, out);
        push_char(out, (48u8 + ((n % 10) as u8)) as char);
        proof {
            assert(old(out)@ + spec_digits(n as int) =~= out@);
        }
    }
}

/// The decimal digits of `n`.
pub fn u64_to_string(n: u64) -> (r: String)
    ensures
        r@ == spec_digits(n as int),
{
    let mut r = String::new();
    push_u64_digits(n, &mut r);
    proof {
        assert(Seq::<char>::empty() + spec_digits(n as int) =~= spec_digits(n as int));
    }
    r
}

/// The decimal rendering of `n`, minus sign included.
pub fn i32_to_string(n: i32) -> (r: String)
    ensures
        r@ == spec_signed_digits(n as int),
{
    if n < 0 {
        let m: i64 = n as i64;
        let mut r = String::from_str("-");
        push_u64_digits((-m) as u64, &mut r);
        proof {
            reveal_strlit("-");
            assert("-"@ + spec_digits(-(n as int)) =~= seq!['-'] + spec_digits(-(n as int)));
        }
        r
    } else {
        u64_to_string(n as u64)
    }
}

/// Three-way lexicographic order of the tails of `a` and `b` from
/// position `i` on: -1, 0 or 1.
pub open spec fn spec_lex_cmp_from(a: Seq<char>, b: Seq<char>, i: int) -> int
    decreases a.len() + b.len() - 2 * i,
{
    if i >= a.len() && i >= b.len() {
        0
    } else if i >= a.len() {
        -1
    } else if i >= b.len() {
        1
    } else if a[i] != b[i] {
        if a[i] < b[i] {
            -1
        } else {
            1
        }
    } else {
        spec_lex_cmp_from(a, b, i + 1)
    }
}

/// Three-way lexicographic order of `a` and `b` by character value.
pub open spec fn spec_lex_cmp(a: Seq<char>, b: Seq<char>) -> int {
    spec_lex_cmp_from(a, b, 0)
}

/// Compares two strings lexicographically by character value:
/// -1 where `a` comes first, 1 where `b` does, 0 where they are equal.
pub fn str_lex_cmp(a: &str, b: &str) -> (r: i32)
    ensures
        r == spec_lex_cmp(a@, b@),
{
    let a_len = a.unicode_len();
    let b_len = b.unicode_len();
    let mut i: usize = 0;
    loop
        invariant
            i <= a_len,
            i <= b_len,
            a_len == a@.len(),
            b_len == b@.len(),
            spec_lex_cmp(a@, b@) == spec_lex_cmp_from(a@, b@, i as int),
        decreases a_len - i,
    {
        if i >= a_len && i >= b_len {
            return 0;
        }
        if i >= a_len {
            return -1;
        }
        if i >= b_len {
            return 1;
        }
        let ca = a.get_char(i);
        let cb = b.get_char(i);
        if ca != cb {
            if ca < cb {
                return -1;
            } else {
                return 1;
            }
        }
        i = i + 1;
    }
}

/// Appends the decimal rendering of a signed 64-bit number.
pub fn push_i64(n: i64, out: &mut String)
    ensures
        final(out)@ == old(out)@ + spec_signed_digits(n as int),
{
    if n < 0 {
        push_char(out, '-');
        let wide: i128 = n as i128;
        push_u64_digits((-wide) as u64, out);
        proof {
            assert(out@ =~= old(out)@ + spec_signed_digits(n as int));
        }
    } else {
        push_u64_digits(n as u64, out);
    }
}

/// Two tails are in order zero exactly when they are the same
/// characters over the same length.
pub proof fn lemma_lex_cmp_zero(a: Seq<char>, b: Seq<char>, i: int)
    requires
        0 <= i <= a.len(),
        0 <= i <= b.len(),
    ensures
        (spec_lex_cmp_from(a, b, i) == 0) <==> (a.len() == b.len() && forall|j: int|
            i <= j < a.len() ==> a[j] == b[j]),
    decreases a.len() + b.len() - 2 * i,
{
    if i < a.len() && i < b.len() && a[i] == b[i] {
        lemma_lex_cmp_zero(a, b, i + 1);
    }
}

/// Whether two strings hold the same characters.
pub fn str_eq(a: &str, b: &str) -> (r: bool)
    ensures
        r == (a@ == b@),
{
    let c = str_lex_cmp(a, b);
    proof {
        lemma_lex_cmp_zero(a@, b@, 0);
        if c == 0 {
            assert(a@ =~= b@);
        }
    }
    c == 0
}

} // verus!
