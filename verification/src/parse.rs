//! Decimal numbers written as text, as `str::parse` reads them into the
//! unsigned integer types.
use vstd::prelude::*;
use std::num::ParseIntError;

verus! {

#[verifier::external_type_specification]
#[verifier::external_body]
pub struct ExParseIntError(ParseIntError);

/// `true` for the characters `0` to `9`.
pub open spec fn is_digit(c: char) -> bool {
    '0' <= c <= '9'
}

/// The value of a string of decimal digits.
pub open spec fn decimal_value(d: Seq<char>) -> int
    decreases d.len(),
{
    if d.len() == 0 {
        0
    } else {
        decimal_value(d.drop_last()) * 10 + (d.last() as int - '0' as int)
    }
}

/// What an unsigned type's `from_str` gives: the value of an optional `+`
/// followed by one or more decimal digits, when it is at most `max`;
/// nothing otherwise.
pub open spec fn spec_parse_unsigned(s: Seq<char>, max: int) -> Option<int> {
    let digits = if s.len() > 0 && s[0] == '+' {
        s.drop_first()
    } else {
        s
    };
    if digits.len() > 0 && (forall|i: int| 0 <= i < digits.len() ==> is_digit(#[trigger] digits[i]))
        && decimal_value(digits) <= max {
        Some(decimal_value(digits))
    } else {
        None
    }
}

/// What `u64`'s `from_str` gives.
pub open spec fn spec_parse_u64(s: Seq<char>) -> Option<u64> {
    match spec_parse_unsigned(s, u64::MAX as int) {
        Some(n) => Some(n as u64),
        None => None,
    }
}

/// What `usize`'s `from_str` gives.
pub open spec fn spec_parse_usize(s: Seq<char>) -> Option<usize> {
    match spec_parse_unsigned(s, usize::MAX as int) {
        Some(n) => Some(n as usize),
        None => None,
    }
}

/// What `u32`'s `from_str` gives.
pub open spec fn spec_parse_u32(s: Seq<char>) -> Option<u32> {
    match spec_parse_unsigned(s, u32::MAX as int) {
        Some(n) => Some(n as u32),
        None => None,
    }
}

/// Calls `str::parse::<u64>`, whose documentation says that it accepts an
/// optional `+` sign followed by only digits, and fails when the value
/// does not fit. That is what this contract claims of it.
#[verifier::external_body]
pub(crate) fn parse_u64(s: &str) -> (r: Result<u64, ParseIntError>)
    ensures
        r is Ok <==> spec_parse_u64(s@) is Some,
        r matches Ok(n) ==> spec_parse_u64(s@) == Some(n),
{
    s.parse::<u64>()
}

/// Calls `str::parse::<usize>`; the same claim as for `u64`, with the
/// bound of `usize`.
#[verifier::external_body]
pub(crate) fn parse_usize(s: &str) -> (r: Result<usize, ParseIntError>)
    ensures
        r is Ok <==> spec_parse_usize(s@) is Some,
        r matches Ok(n) ==> spec_parse_usize(s@) == Some(n),
{
    s.parse::<usize>()
}

/// Calls `str::parse::<u32>`; the same claim as for `u64`, with the bound
/// of `u32`.
#[verifier::external_body]
pub(crate) fn parse_u32(s: &str) -> (r: Result<u32, ParseIntError>)
    ensures
        r is Ok <==> spec_parse_u32(s@) is Some,
        r matches Ok(n) ==> spec_parse_u32(s@) == Some(n),
{
    s.parse::<u32>()
}

} // verus!
