//! The model identifiers the remote API accepts, and their wire names.

use vstd::prelude::*;

use crate::text::push_char;

verus! {

/// The generative models the API offers. `Custom` carries any other
/// model name; double quotes in it are dropped when the name is rendered.
#[derive(Debug, Clone)]
pub enum Models {
    Gemini15ProExp0827,
    Gemini15FlashExp0827,
    Gemini15Flash8bExp0827,
    Gemini15Pro,
    Gemini2FlashExp,
    Gemini2Flash,
    Gemini2FlashLite,
    Gemini2FlashThinkingExp,
    Gemini2ProExp1206,
    Gemini2ProExp,
    Gemini25ProExp,
    Gemini15Flash,
    Gemini10Pro,
    Gemma2_2bIt,
    Gemma2_9bIt,
    Gemma2_27bIt,
    Custom(String),
}

/// `s` with every double-quote character removed.
pub open spec fn spec_remove_quotes(s: Seq<char>) -> Seq<char>
    decreases s.len(),
{
    if s.len() == 0 {
        Seq::<char>::empty()
    } else if s.last() == '"' {
        spec_remove_quotes(s.drop_last())
    } else {
        spec_remove_quotes(s.drop_last()).push(s.last())
    }
}

impl Models {
    /// The name this model goes by on the wire.
    pub open spec fn spec_name(&self) -> Seq<char> {
        match self {
            Models::Gemini15ProExp0827 => "gemini-1.5-pro-exp-0827"@,
            Models::Gemini15FlashExp0827 => "gemini-1.5-flash-exp-0827"@,
            Models::Gemini15Flash8bExp0827 => "gemini-1.5-flash-8b-exp-0827"@,
            Models::Gemini15Pro => "gemini-1.5-pro"@,
            Models::Gemini2FlashExp => "gemini-2.0-flash-exp"@,
            Models::Gemini2Flash => "gemini-2.0-flash"@,
            Models::Gemini2FlashLite => "gemini-2.0-flash-lite"@,
            Models::Gemini2FlashThinkingExp => "gemini-2.0-flash-thinking-exp-01-21"@,
            Models::Gemini2ProExp1206 => "gemini-exp-1206"@,
            Models::Gemini2ProExp => "gemini-2.0-pro-exp-02-05"@,
            Models::Gemini25ProExp => "gemini-2.5-pro-preview-05-06"@,
            Models::Gemini15Flash => "gemini-1.5-flash"@,
            Models::Gemini10Pro => "gemini-1.0-pro"@,
            Models::Gemma2_2bIt => "gemma-2-2b-it"@,
            Models::Gemma2_9bIt => "gemma-2-9b-it"@,
            Models::Gemma2_27bIt => "gemma-2-27b-it"@,
            Models::Custom(name) => spec_remove_quotes(name@),
        }
    }

    /// Renders the model's wire name; a custom name loses its double
    /// quotes, every fixed variant maps to its fixed name.
    pub fn to_string(&self) -> (r: String)
        ensures
            r@ == self.spec_name(),
    {
        match self {
            Models::Gemini15ProExp0827 => String::from_str("gemini-1.5-pro-exp-0827"),
            Models::Gemini15FlashExp0827 => String::from_str("gemini-1.5-flash-exp-0827"),
            Models::Gemini15Flash8bExp0827 => String::from_str("gemini-1.5-flash-8b-exp-0827"),
            Models::Gemini15Pro => String::from_str("gemini-1.5-pro"),
            Models::Gemini2FlashExp => String::from_str("gemini-2.0-flash-exp"),
            Models::Gemini2Flash => String::from_str("gemini-2.0-flash"),
            Models::Gemini2FlashLite => String::from_str("gemini-2.0-flash-lite"),
            Models::Gemini2FlashThinkingExp => {
                String::from_str("gemini-2.0-flash-thinking-exp-01-21")
            },
            Models::Gemini2ProExp1206 => String::from_str("gemini-exp-1206"),
            Models::Gemini2ProExp => String::from_str("gemini-2.0-pro-exp-02-05"),
            Models::Gemini25ProExp => String::from_str("gemini-2.5-pro-preview-05-06"),
            Models::Gemini15Flash => String::from_str("gemini-1.5-flash"),
            Models::Gemini10Pro => String::from_str("gemini-1.0-pro"),
            Models::Gemma2_2bIt => String::from_str("gemma-2-2b-it"),
            Models::Gemma2_9bIt => String::from_str("gemma-2-9b-it"),
            Models::Gemma2_27bIt => String::from_str("gemma-2-27b-it"),
            Models::Custom(name) => remove_quotes(name.as_str()),
        }
    }
}

impl Default for Models {
    /// The model used when none is chosen.
    fn default() -> (r: Self)
        ensures
            r == Models::Gemini2Flash,
    {
        Models::Gemini2Flash
    }
}

/// Copies `s` leaving out every double-quote character.
pub fn remove_quotes(s: &str) -> (r: String)
    ensures
        r@ == spec_remove_quotes(s@),
{
    let n = s.unicode_len();
    let mut r = String::new();
    for i in 0..n
        invariant
            n == s@.len(),
            r@ == spec_remove_quotes(s@.subrange(0, i as int)),
    {
        let c = s.get_char(i);
        proof {
            assert(s@.subrange(0, i + 1).drop_last() =~= s@.subrange(0, i as int));
            assert(s@.subrange(0, i + 1).last() == s@[i as int]);
        }
        if c != '"' {
            push_char(&mut r, c);
        }
    }
    proof {
        assert(s@.subrange(0, n as int) =~= s@);
    }
    r
}

} // verus!
