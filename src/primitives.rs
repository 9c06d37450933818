use vstd::prelude::*;

use crate::error::{NumberKind, ParseError};
use crate::text::{
    hex_u64_of, i64_of, i8_of, parse_signed, parse_unsigned, str_eq, strip_hex_prefix,
    trim_hex_prefix, u64_of, u8_of,
};

verus! {

/// The value of a boolean field: `nil` and `0` are false, `1` is true.
pub open spec fn bool_of(s: Seq<char>) -> Option<bool> {
    if s == "nil"@ || s == "0"@ {
        Some(false)
    } else if s == "1"@ {
        Some(true)
    } else {
        None
    }
}

/// The value of a hexadecimal field, with or without a leading `0x`.
pub open spec fn hex_field_of(s: Seq<char>) -> Option<u64> {
    hex_u64_of(strip_hex_prefix(s))
}

pub open spec fn is_invalid_number(e: ParseError, s: Seq<char>, k: NumberKind) -> bool {
    e matches ParseError::InvalidNumber { field, expected } && field@ == s && expected == k
}

/// Decodes an unsigned decimal field.
pub fn parse_num(x: &str) -> (r: Result<u64, ParseError>)
    ensures
        u64_of(x@) matches Some(v) ==> r == Ok::<u64, ParseError>(v),
        u64_of(x@) is None ==> (r matches Err(e) && is_invalid_number(e, x@, NumberKind::U64)),
{
    match parse_unsigned(x, 10, u64::MAX) {
        Some(v) => Ok(v),
        None => Err(ParseError::InvalidNumber { field: x.to_owned(), expected: NumberKind::U64 }),
    }
}

/// Decodes an unsigned decimal field of at most 255.
pub fn parse_u8(x: &str) -> (r: Result<u8, ParseError>)
    ensures
        u8_of(x@) matches Some(v) ==> r == Ok::<u8, ParseError>(v),
        u8_of(x@) is None ==> (r matches Err(e) && is_invalid_number(e, x@, NumberKind::U8)),
{
    match parse_unsigned(x, 10, 255) {
        Some(v) => Ok(v as u8),
        None => Err(ParseError::InvalidNumber { field: x.to_owned(), expected: NumberKind::U8 }),
    }
}

/// Decodes a signed decimal field.
pub fn parse_i64(x: &str) -> (r: Result<i64, ParseError>)
    ensures
        i64_of(x@) matches Some(v) ==> r == Ok::<i64, ParseError>(v),
        i64_of(x@) is None ==> (r matches Err(e) && is_invalid_number(e, x@, NumberKind::I64)),
{
    match parse_signed(x, i64::MIN, i64::MAX) {
        Some(v) => Ok(v),
        None => Err(ParseError::InvalidNumber { field: x.to_owned(), expected: NumberKind::I64 }),
    }
}

/// Decodes a signed decimal field within the range of `i8`.
pub fn parse_i8(x: &str) -> (r: Result<i8, ParseError>)
    ensures
        i8_of(x@) matches Some(v) ==> r == Ok::<i8, ParseError>(v),
        i8_of(x@) is None ==> (r matches Err(e) && is_invalid_number(e, x@, NumberKind::I8)),
{
    match parse_signed(x, -128, 127) {
        Some(v) => Ok(v as i8),
        None => Err(ParseError::InvalidNumber { field: x.to_owned(), expected: NumberKind::I8 }),
    }
}

/// Decodes a boolean field: `nil` or `0` is false, `1` is true.
pub fn parse_bool(x: &str) -> (r: Result<bool, ParseError>)
    ensures
        bool_of(x@) matches Some(b) ==> r == Ok::<bool, ParseError>(b),
        bool_of(x@) is None ==> (r matches Err(ParseError::InvalidBool { field }) && field@ == x@),
{
    if str_eq(x, "nil") || str_eq(x, "0") {
        Ok(false)
    } else if str_eq(x, "1") {
        Ok(true)
    } else {
        Err(ParseError::InvalidBool { field: x.to_owned() })
    }
}

/// Decodes a hexadecimal field, with or without a leading `0x`.
pub fn parse_hex(x: &str) -> (r: Result<u64, ParseError>)
    ensures
        hex_field_of(x@) matches Some(v) ==> r == Ok::<u64, ParseError>(v),
        hex_field_of(x@) is None ==> (r matches Err(ParseError::InvalidHex { field })
            && field@ == x@),
{
    match parse_unsigned(trim_hex_prefix(x), 16, u64::MAX) {
        Some(v) => Ok(v),
        None => Err(ParseError::InvalidHex { field: x.to_owned() }),
    }
}

} // verus!
