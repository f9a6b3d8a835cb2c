//! Numbers as they are typed: what a text denotes as a decimal integer, and
//! the number types that can be read from text.

use vstd::prelude::*;

verus! {

/// Whether `c` is one of the digits `0` to `9`.
pub open spec fn is_digit(c: char) -> bool {
    '0' <= c <= '9'
}

/// The value of the digit `c`.
pub open spec fn digit_value(c: char) -> int {
    c as int - '0' as int
}

/// The number that a run of digits denotes in base ten.
pub open spec fn digits_value(digits: Seq<char>) -> int
    decreases digits.len(),
{
    if digits.len() == 0 {
        0
    } else {
        10 * digits_value(digits.drop_last()) + digit_value(digits.last())
    }
}

/// The number that `digits` denotes, if it is a run of at least one digit.
pub open spec fn unsigned_decimal(digits: Seq<char>) -> Option<int> {
    if digits.len() > 0 && (forall|i: int| 0 <= i < digits.len() ==> is_digit(#[trigger] digits[i])) {
        Some(digits_value(digits))
    } else {
        None
    }
}

/// The integer that `text` denotes: an optional sign followed by digits and
/// nothing else. A `+` is always accepted, a `-` only where `signed`.
pub open spec fn decimal(text: Seq<char>, signed: bool) -> Option<int> {
    if text.len() > 0 && text[0] == '+' {
        unsigned_decimal(text.drop_first())
    } else if signed && text.len() > 0 && text[0] == '-' {
        match unsigned_decimal(text.drop_first()) {
            Some(v) => Some(-v),
            None => None,
        }
    } else {
        unsigned_decimal(text)
    }
}

/// The integer that `text` denotes, if it lies between `min` and `max`.
pub open spec fn decimal_within(text: Seq<char>, signed: bool, min: int, max: int) -> Option<int> {
    match decimal(text, signed) {
        Some(v) if min <= v <= max => Some(v),
        _ => None,
    }
}

/// A number type that can be read from what the user typed.
pub trait Numeric: Copy {
    /// The number that `text` denotes, if it denotes one of this type.
    spec fn parsed(text: Seq<char>) -> Option<Self>;

    /// Reads a number from `text`.
    fn parse(text: &str) -> (r: Option<Self>)
        ensures
            r == Self::parsed(text@),
    ;
}

/// Wraps `str::parse::<i32>`. Claimed of it, after its documentation: it
/// returns the number where the text is an optional `+` or `-` sign followed by
/// decimal digits only and the number fits an `i32`; on every other text,
/// the empty one included, it fails.
#[verifier::external_body]
fn parse_i32(text: &str) -> (r: Option<i32>)
    ensures
        r matches Some(v) ==> decimal_within(text@, true, i32::MIN as int, i32::MAX as int) == Some(
            v as int,
        ),
        r is None ==> decimal_within(text@, true, i32::MIN as int, i32::MAX as int) is None,
{
    text.parse::<i32>().ok()
}

/// Wraps `str::parse::<i64>`. Claimed of it, after its documentation: it
/// returns the number where the text is an optional `+` or `-` sign followed by
/// decimal digits only and the number fits an `i64`; on every other text,
/// the empty one included, it fails.
#[verifier::external_body]
fn parse_i64(text: &str) -> (r: Option<i64>)
    ensures
        r matches Some(v) ==> decimal_within(text@, true, i64::MIN as int, i64::MAX as int) == Some(
            v as int,
        ),
        r is None ==> decimal_within(text@, true, i64::MIN as int, i64::MAX as int) is None,
{
    text.parse::<i64>().ok()
}

/// Wraps `str::parse::<u32>`. Claimed of it, after its documentation: it
/// returns the number where the text is an optional `+` sign followed by
/// decimal digits only and the number fits a `u32`; on every other text,
/// the empty one included, it fails.
#[verifier::external_body]
fn parse_u32(text: &str) -> (r: Option<u32>)
    ensures
        r matches Some(v) ==> decimal_within(text@, false, 0, u32::MAX as int) == Some(v as int),
        r is None ==> decimal_within(text@, false, 0, u32::MAX as int) is None,
{
    text.parse::<u32>().ok()
}

/// Wraps `str::parse::<u64>`. Claimed of it, after its documentation: it
/// returns the number where the text is an optional `+` sign followed by
/// decimal digits only and the number fits a `u64`; on every other text,
/// the empty one included, it fails.
#[verifier::external_body]
fn parse_u64(text: &str) -> (r: Option<u64>)
    ensures
        r matches Some(v) ==> decimal_within(text@, false, 0, u64::MAX as int) == Some(v as int),
        r is None ==> decimal_within(text@, false, 0, u64::MAX as int) is None,
{
    text.parse::<u64>().ok()
}

/// Wraps `str::parse::<usize>`. Claimed of it, after its documentation: it
/// returns the number where the text is an optional `+` sign followed by
/// decimal digits only and the number fits a `usize`; on every other text,
/// the empty one included, it fails.
#[verifier::external_body]
fn parse_usize(text: &str) -> (r: Option<usize>)
    ensures
        r matches Some(v) ==> decimal_within(text@, false, 0, usize::MAX as int) == Some(v as int),
        r is None ==> decimal_within(text@, false, 0, usize::MAX as int) is None,
{
    text.parse::<usize>().ok()
}

impl Numeric for i32 {
    open spec fn parsed(text: Seq<char>) -> Option<i32> {
        match decimal_within(text, true, i32::MIN as int, i32::MAX as int) {
            Some(v) => Some(v as i32),
            None => None,
        }
    }

    fn parse(text: &str) -> (r: Option<i32>) {
        parse_i32(text)
    }
}

impl Numeric for i64 {
    open spec fn parsed(text: Seq<char>) -> Option<i64> {
        match decimal_within(text, true, i64::MIN as int, i64::MAX as int) {
            Some(v) => Some(v as i64),
            None => None,
        }
    }

    fn parse(text: &str) -> (r: Option<i64>) {
        parse_i64(text)
    }
}

impl Numeric for u32 {
    open spec fn parsed(text: Seq<char>) -> Option<u32> {
        match decimal_within(text, false, 0, u32::MAX as int) {
            Some(v) => Some(v as u32),
            None => None,
        }
    }

    fn parse(text: &str) -> (r: Option<u32>) {
        parse_u32(text)
    }
}

impl Numeric for u64 {
    open spec fn parsed(text: Seq<char>) -> Option<u64> {
        match decimal_within(text, false, 0, u64::MAX as int) {
            Some(v) => Some(v as u64),
            None => None,
        }
    }

    fn parse(text: &str) -> (r: Option<u64>) {
        parse_u64(text)
    }
}

impl Numeric for usize {
    open spec fn parsed(text: Seq<char>) -> Option<usize> {
        match decimal_within(text, false, 0, usize::MAX as int) {
            Some(v) => Some(v as usize),
            None => None,
        }
    }

    fn parse(text: &str) -> (r: Option<usize>) {
        parse_usize(text)
    }
}

} // verus!
