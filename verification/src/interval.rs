//! The time between two sweeps over the subscriptions, as the configuration
//! writes it: a number and a unit, such as `30 s`, `5min` or `1 hour`.

use crate::text::{lowered, lowered_is};
use vstd::prelude::*;

verus! {

/// The pattern of a configured interval: group 1 is the number, group 2 the
/// unit.
pub const INTERVAL_PATTERN: &'static str = "^\\s*(\\d+)\\s*((?i)s|sec|m|min|h|hour)\\s*$";

/// Why a text is no interval.
#[derive(Debug, Clone, Copy, PartialEq, Eq, Structural)]
pub enum IntervalError {
    /// The text is not a number followed by a unit.
    Format,
    /// The number is not written in the digits `0` to `9`, or is too large
    /// for 64 bits.
    Number,
    /// The unit is none of `s`, `sec`, `m`, `min`, `h`, `hour`.
    Unit,
    /// The interval has more seconds than 64 bits hold.
    TooLong,
}

/// What groups 1 and 2 of `pattern` hold after a match on `text`, each absent
/// where the group took no part in it. `None` where `pattern` is not a
/// regular expression that the `regex` crate compiles, or matches nowhere in
/// `text`.
pub uninterp spec fn regex_groups(pattern: Seq<char>, text: Seq<char>) -> Option<
    (Option<Seq<char>>, Option<Seq<char>>),
>;

/// The texts of a pair of optional strings.
pub open spec fn texts_of(groups: Option<(Option<String>, Option<String>)>) -> Option<
    (Option<Seq<char>>, Option<Seq<char>>),
> {
    match groups {
        Some((first, second)) => Some(
            (
                match first {
                    Some(s) => Some(s@),
                    None => None,
                },
                match second {
                    Some(s) => Some(s@),
                    None => None,
                },
            ),
        ),
        None => None,
    }
}

/// Compiles `pattern` with `regex::Regex::new`, searches `text` for its
/// leftmost match with `Regex::captures`, and copies out what
/// `Captures::get` and `Match::as_str` give for groups 1 and 2. Nothing is
/// proved of this; the contract only gives the result its name.
#[verifier::external_body]
fn first_two_groups(pattern: &str, text: &str) -> (groups: Option<
    (Option<String>, Option<String>),
>)
    ensures
        texts_of(groups) == regex_groups(pattern@, text@),
{
    let regex = match regex::Regex::new(pattern) {
        Ok(regex) => regex,
        Err(_) => return None,
    };
    let captures = regex.captures(text)?;
    let first = captures.get(1).map(|m| m.as_str().to_string());
    let second = captures.get(2).map(|m| m.as_str().to_string());
    Some((first, second))
}

/// The number that `digits` write in base ten.
pub open spec fn decimal_value(digits: Seq<char>) -> nat
    decreases digits.len(),
{
    if digits.len() == 0 {
        0
    } else {
        decimal_value(digits.drop_last()) * 10 + (digits.last() as nat - '0' as nat) as nat
    }
}

/// `text` is one or more of the digits `0` to `9`.
pub open spec fn is_number(text: Seq<char>) -> bool {
    text.len() > 0 && forall|i: int| 0 <= i < text.len() ==> '0' <= #[trigger] text[i] <= '9'
}

/// The seconds of one `unit`; none where `unit` is no unit.
pub open spec fn unit_seconds(unit: Seq<char>) -> Option<nat> {
    let unit = lowered(unit);
    if unit == "s"@ || unit == "sec"@ {
        Some(1)
    } else if unit == "m"@ || unit == "min"@ {
        Some(60)
    } else if unit == "h"@ || unit == "hour"@ {
        Some(3600)
    } else {
        None
    }
}

/// The seconds of `number` times `unit`.
pub open spec fn seconds_model(number: Seq<char>, unit: Seq<char>) -> Result<u64, IntervalError> {
    if !is_number(number) || decimal_value(number) > u64::MAX {
        Err(IntervalError::Number)
    } else {
        match unit_seconds(unit) {
            None => Err(IntervalError::Unit),
            Some(seconds) => if decimal_value(number) * seconds > u64::MAX {
                Err(IntervalError::TooLong)
            } else {
                Ok((decimal_value(number) * seconds) as u64)
            },
        }
    }
}

/// The seconds of the interval whose parts a match of the pattern gave.
pub open spec fn interval_model(
    groups: Option<(Option<Seq<char>>, Option<Seq<char>>)>,
) -> Result<u64, IntervalError> {
    match groups {
        Some((Some(number), Some(unit))) => seconds_model(number, unit),
        _ => Err(IntervalError::Format),
    }
}

proof fn lemma_prefix_value(digits: Seq<char>, n: int)
    requires
        0 <= n <= digits.len(),
    ensures
        decimal_value(digits.take(n)) <= decimal_value(digits),
    decreases digits.len() - n,
{
    if n == digits.len() {
        assert(digits.take(n) =~= digits);
    } else {
        lemma_prefix_value(digits, n + 1);
        assert(digits.take(n + 1).drop_last() =~= digits.take(n));
    }
}

/// Reads a number written in the digits `0` to `9`. `None` where `text` is
/// empty, holds anything else, or writes a number above `u64::MAX`.
pub fn parse_number(text: &str) -> (r: Option<u64>)
    ensures
        r is Some <==> is_number(text@) && decimal_value(text@) <= u64::MAX,
        r is Some ==> r->0 == decimal_value(text@),
{
    let n = text.unicode_len();
    if n == 0 {
        return None;
    }
    let mut value: u64 = 0;
    let mut i: usize = 0;
    while i < n
        invariant
            n == text@.len(),
            0 <= i <= n,
            value == decimal_value(text@.take(i as int)),
            forall|j: int| 0 <= j < i ==> '0' <= #[trigger] text@[j] <= '9',
        decreases n - i,
    {
        let c = text.get_char(i);
        if c < '0' || c > '9' {
            return None;
        }
        let digit = (c as u32 - '0' as u32) as u64;
        proof {
            assert(text@.take(i + 1).drop_last() =~= text@.take(i as int));
            lemma_prefix_value(text@, i + 1);
        }
        let next = match value.checked_mul(10) {
            Some(tens) => tens.checked_add(digit),
            None => None,
        };
        match next {
            Some(v) => {
                value = v;
            },
            None => {
                return None;
            },
        }
        i = i + 1;
    }
    proof {
        assert(text@.take(n as int) =~= text@);
    }
    Some(value)
}

/// The seconds of an interval from its two parts: the number, in the digits
/// `0` to `9`, and the unit, one of `s`, `sec`, `m`, `min`, `h`, `hour` in
/// upper or lower case.
pub fn interval_seconds(number: &str, unit: &str) -> (r: Result<u64, IntervalError>)
    ensures
        r == seconds_model(number@, unit@),
{
    let count = match parse_number(number) {
        Some(count) => count,
        None => {
            return Err(IntervalError::Number);
        },
    };
    let seconds: u64 = if lowered_is(unit, "s") || lowered_is(unit, "sec") {
        1
    } else if lowered_is(unit, "m") || lowered_is(unit, "min") {
        60
    } else if lowered_is(unit, "h") || lowered_is(unit, "hour") {
        3600
    } else {
        return Err(IntervalError::Unit);
    };
    match count.checked_mul(seconds) {
        Some(total) => Ok(total),
        None => Err(IntervalError::TooLong),
    }
}

/// The seconds of the interval whose parts a match of [`INTERVAL_PATTERN`]
/// gave: `Format` where there was no match or a part is missing, else as
/// [`interval_seconds`] says.
pub fn interval_from_groups(groups: Option<(Option<String>, Option<String>)>) -> (r: Result<
    u64,
    IntervalError,
>)
    ensures
        r == interval_model(texts_of(groups)),
{
    match groups {
        Some((Some(number), Some(unit))) => interval_seconds(number.as_str(), unit.as_str()),
        _ => Err(IntervalError::Format),
    }
}

/// Reads a configured interval and returns its seconds. The text is matched
/// against [`INTERVAL_PATTERN`]; what the match gives goes to
/// [`interval_from_groups`].
pub fn parse_interval(text: &str) -> (r: Result<u64, IntervalError>)
    ensures
        r == interval_model(regex_groups(INTERVAL_PATTERN@, text@)),
{
    interval_from_groups(first_two_groups(INTERVAL_PATTERN, text))
}

} // verus!
