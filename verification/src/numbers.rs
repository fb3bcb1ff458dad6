//! The integer ranges of the Matrix protocol.

use vstd::prelude::*;

use crate::errors::{refusal, FailureText, UploadedImageError};
use crate::text::join2;

verus! {

/// The largest integer that the protocol can carry.
pub const MAX_PROTOCOL_INT: u64 = 0x001F_FFFF_FFFF_FFFF;

/// `ruma::UInt::new`: a number is kept if it is at most 2^53 - 1, and refused otherwise.
#[verifier::external_body]
fn ruma_uint(value: u64) -> (r: Option<u64>)
    ensures
        r == (if value <= MAX_PROTOCOL_INT {
            Some(value)
        } else {
            None
        }),
{
    ruma::UInt::new(value).map(u64::from)
}

/// `ruma::Int::new`: a number is kept if its magnitude is at most 2^53 - 1, and refused otherwise.
#[verifier::external_body]
fn ruma_int(value: i64) -> (r: Option<i64>)
    ensures
        r == (if -(MAX_PROTOCOL_INT as int) <= value <= MAX_PROTOCOL_INT {
            Some(value)
        } else {
            None
        }),
{
    ruma::Int::new(value).map(i64::from)
}

/// A number as the protocol's unsigned integer, if it fits.
pub fn protocol_uint(value: u64) -> (r: Option<u64>)
    ensures
        r == (if value <= MAX_PROTOCOL_INT {
            Some(value)
        } else {
            None
        }),
{
    ruma_uint(value)
}

/// A number as the protocol's signed integer, if it fits.
pub fn protocol_int(value: i64) -> (r: Option<i64>)
    ensures
        r == (if -(MAX_PROTOCOL_INT as int) <= value <= MAX_PROTOCOL_INT {
            Some(value)
        } else {
            None
        }),
{
    ruma_int(value)
}

/// The number that stands for `value` in the protocol: the number itself where it fits, else the
/// largest one.
pub open spec fn capped(value: u64) -> u64 {
    if value <= MAX_PROTOCOL_INT {
        value
    } else {
        MAX_PROTOCOL_INT
    }
}

/// Caps a number at the largest one of the protocol.
pub fn u64_to_uint(value: u64) -> (r: u64)
    ensures
        r == capped(value),
{
    match ruma_uint(value) {
        Some(value) => value,
        None => MAX_PROTOCOL_INT,
    }
}

/// What is wrong with a number that must be positive and fit the protocol.
pub open spec fn uint_problem(value: u64, field_name: Seq<char>) -> Option<FailureText> {
    if value == 0 {
        Some(refusal(field_name + " must be greater than 0"@))
    } else if value > MAX_PROTOCOL_INT {
        Some(refusal(field_name + " is too large for Matrix UInt"@))
    } else {
        None
    }
}

/// Accepts a number that is positive and fits the protocol.
pub fn validate_positive_uint(value: u64, field_name: &str) -> (r: Result<u64, UploadedImageError>)
    ensures
        match r {
            Ok(kept) => kept == value && uint_problem(value, field_name@) is None,
            Err(error) => uint_problem(value, field_name@) == Some(error@),
        },
{
    if value == 0 {
        return Err(
            UploadedImageError::validation(join2(field_name, " must be greater than 0"), None),
        );
    }
    match ruma_uint(value) {
        Some(_) => Ok(value),
        None => Err(
            UploadedImageError::validation(
                join2(field_name, " is too large for Matrix UInt"),
                None,
            ),
        ),
    }
}

/// A number that the protocol carries and that is not zero.
pub open spec fn countable(value: u64) -> bool {
    1 <= value <= 0x1F_FFFF_FFFF_FFFF
}

/// A number is accepted exactly if it is not zero and the protocol carries it, and is then kept. A
/// refusal says under the number's name which of the two is at fault.
pub proof fn law_countable_numbers_are_kept(
    value: u64,
    field_name: &str,
    r: Result<u64, UploadedImageError>,
)
    requires
        call_ensures(validate_positive_uint, (value, field_name), r),
    ensures
        match r {
            Ok(kept) => 1 <= value <= 0x1F_FFFF_FFFF_FFFF && kept == value,
            Err(error) => !(1 <= value <= 0x1F_FFFF_FFFF_FFFF) && error@ == (FailureText::Validation {
                msg: field_name@ + if value == 0 {
                    " must be greater than 0"@
                } else {
                    " is too large for Matrix UInt"@
                },
                details: None,
            }),
        },
{
}

/// A number is cut down to the largest one that the protocol carries, and no further: numbers below
/// it stay what they are, and larger ones all become that one.
pub proof fn law_numbers_are_cut_down_to_the_largest(value: u64, r: u64)
    requires
        call_ensures(u64_to_uint, (value,), r),
    ensures
        r <= 0x1F_FFFF_FFFF_FFFF,
        r <= value,
        value <= 0x1F_FFFF_FFFF_FFFF ==> r == value,
        value > 0x1F_FFFF_FFFF_FFFF ==> r == 0x1F_FFFF_FFFF_FFFF,
{
}

/// The protocol carries an unsigned number exactly if it is at most 2^53 - 1, and a signed number
/// exactly if its magnitude is. What it carries it leaves as it is.
pub proof fn law_protocol_range(unsigned: u64, signed: i64, kept: Option<u64>, level: Option<i64>)
    requires
        call_ensures(protocol_uint, (unsigned,), kept),
        call_ensures(protocol_int, (signed,), level),
    ensures
        kept is Some <==> unsigned <= 0x1F_FFFF_FFFF_FFFF,
        kept matches Some(number) ==> number == unsigned,
        level is Some <==> -0x1F_FFFF_FFFF_FFFF <= signed <= 0x1F_FFFF_FFFF_FFFF,
        level matches Some(number) ==> number == signed,
{
}

} // verus!
