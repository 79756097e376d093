use vstd::prelude::*;
use vstd::string::StringExecFns;
use crate::book::PLACES;
use crate::text::{
    chars_of, contains_ignoring_case, contains_lowered, parse_decimal, parsed_decimal, same_text,
};

verus! {

/// The pattern of a price target in a question: a dollar sign, digits with
/// commas and an optional fraction, and an optional letter for thousands,
/// millions or billions.
pub const STRIKE_PATTERN: &'static str = "\\$([0-9,]+\\.?[0-9]*)\\s*([kKmMbB])?";

/// What the first match of a pattern in a text captured: the text of each
/// group, the whole match first, and nothing for a group that took no part.
/// Nothing where the pattern is ill-formed or matches nowhere.
pub uninterp spec fn captured(pattern: Seq<char>, text: Seq<char>) -> Option<
    Seq<Option<Seq<char>>>,
>;

/// The texts of captured groups.
pub open spec fn group_texts(groups: Seq<Option<String>>) -> Seq<Option<Seq<char>>> {
    Seq::new(
        groups.len(),
        |i: int|
            match groups[i] {
                Some(s) => Some(s@),
                None => None,
            },
    )
}

/// Compiles a pattern with `regex::Regex::new` and searches a text with
/// `Regex::captures`. The groups of the first match come as texts. The
/// result depends on the pattern and the text alone.
#[verifier::external_body]
fn captures(pattern: &str, text: &str) -> (groups: Option<Vec<Option<String>>>)
    ensures
        match groups {
            Some(g) => captured(pattern@, text@) == Some(group_texts(g@)),
            None => captured(pattern@, text@) is None,
        },
{
    let compiled = regex::Regex::new(pattern).ok()?;
    let found = compiled.captures(text)?;
    Some(found.iter().map(|group| group.map(|m| m.as_str().to_string())).collect())
}

/// The text without its commas.
pub open spec fn without_commas(s: Seq<char>) -> Seq<char>
    decreases s.len(),
{
    if s.len() == 0 {
        s
    } else if s.last() == ',' {
        without_commas(s.drop_last())
    } else {
        without_commas(s.drop_last()).push(s.last())
    }
}

/// The power of ten that a letter behind a number stands for: three for
/// thousands, six for millions, nine for billions.
pub open spec fn suffix_power(suffix: Option<Seq<char>>) -> nat {
    match suffix {
        Some(s) => if s == "k"@ || s == "K"@ {
            3
        } else if s == "m"@ || s == "M"@ {
            6
        } else if s == "b"@ || s == "B"@ {
            9
        } else {
            0
        },
        None => 0,
    }
}

/// The price target that captured groups give, in millionths: the number
/// of the first group times the power of ten of the second, rounded toward
/// zero once. Nothing where the number cannot be read, is not above zero
/// in millionths, or does not fit in 64 bits.
pub open spec fn strike_of(groups: Option<Seq<Option<Seq<char>>>>) -> Option<i64> {
    match groups {
        Some(g) => if g.len() >= 3 && g[1] is Some {
            match parsed_decimal(without_commas(g[1]->0), PLACES as nat + suffix_power(g[2])) {
                Some(v) => if v > 0 {
                    Some(v)
                } else {
                    None
                },
                None => None,
            }
        } else {
            None
        },
        None => None,
    }
}

/// Takes the commas out of a text.
pub fn strip_commas(s: &str) -> (out: String)
    ensures
        out@ == without_commas(s@),
{
    let chars: Vec<char> = chars_of(s);
    let mut out: String = String::new();
    let mut i: usize = 0;
    while i < chars.len()
        invariant
            i <= chars@.len(),
            chars@ == s@,
            out@ == without_commas(s@.take(i as int)),
        decreases chars@.len() - i,
    {
        proof {
            assert(s@.take(i + 1).drop_last() == s@.take(i as int));
            assert(s@.take(i + 1).last() == s@[i as int]);
        }
        if chars[i] != ',' {
            let one: &str = s.substring_char(i, i + 1);
            assert(one@ =~= seq![s@[i as int]]);
            out.append(one);
        }
        i = i + 1;
    }
    proof {
        assert(s@.take(s@.len() as int) == s@);
    }
    out
}

/// The power of ten of a letter behind a number.
pub fn power_of(suffix: &Option<String>) -> (power: u32)
    ensures
        power == suffix_power(
            match *suffix {
                Some(s) => Some(s@),
                None => None,
            },
        ),
        power <= 9,
{
    match suffix {
        Some(s) => {
            let t: &str = s.as_str();
            if same_text(t, "k") || same_text(t, "K") {
                3
            } else if same_text(t, "m") || same_text(t, "M") {
                6
            } else if same_text(t, "b") || same_text(t, "B") {
                9
            } else {
                0
            }
        },
        None => 0,
    }
}

/// The price target that captured groups give.
pub fn strike_from_groups(groups: &Option<Vec<Option<String>>>) -> (strike: Option<i64>)
    ensures
        strike == strike_of(
            match *groups {
                Some(g) => Some(group_texts(g@)),
                None => None,
            },
        ),
{
    match groups {
        Some(g) => {
            if g.len() < 3 {
                return None;
            }
            let number: &String = match &g[1] {
                Some(n) => n,
                None => {
                    return None;
                },
            };
            let plain: String = strip_commas(number.as_str());
            match parse_decimal(plain.as_str(), PLACES + power_of(&g[2])) {
                Some(v) => if v > 0 {
                    Some(v)
                } else {
                    None
                },
                None => None,
            }
        },
        None => None,
    }
}

/// The price target that a question names: `$150k`, `$1.5m`, `$100,000`.
pub fn parse_strike(text: &str) -> (strike: Option<i64>)
    ensures
        strike == strike_of(captured(STRIKE_PATTERN@, text@)),
{
    let groups: Option<Vec<Option<String>>> = captures(STRIKE_PATTERN, text);
    strike_from_groups(&groups)
}

/// The question asks whether a price is hit, reached, or lies above or
/// below a target. Capitals do not matter.
pub open spec fn asks_for_target(question: Seq<char>) -> bool {
    contains_lowered(question, "hit"@) || contains_lowered(question, "above"@)
        || contains_lowered(question, "below"@) || contains_lowered(question, "reach"@)
}

/// Whether a question asks for a price target.
pub fn is_price_target(question: &str) -> (r: bool)
    ensures
        r == asks_for_target(question@),
{
    contains_ignoring_case(question, "hit") || contains_ignoring_case(question, "above")
        || contains_ignoring_case(question, "below") || contains_ignoring_case(question, "reach")
}

} // verus!
