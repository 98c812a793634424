//! The kernel's error code enumeration.
//!
//! The numeric value of each code is a fixed cross-boundary contract with the
//! kernel; it must never be renumbered. Because registers carry plain
//! integers, decoding is done by validated parsing: an exhaustive match with a
//! fallback for out-of-range values.

use vstd::prelude::*;

verus! {

/// An error code returned by the kernel.
#[derive(Clone, Copy, Debug, PartialEq, Eq, Structural)]
pub enum ErrorCode {
    Fail,
    Busy,
    Already,
    Off,
    Reserve,
    Invalid,
    Size,
    Cancel,
    NoMem,
    NoSupport,
    NoDevice,
    Uninstalled,
    NoAck,
    BadRVal,
}

/// The kernel's numeric value for each error code.
pub open spec fn error_code_value(e: ErrorCode) -> u32 {
    match e {
        ErrorCode::Fail => 1,
        ErrorCode::Busy => 2,
        ErrorCode::Already => 3,
        ErrorCode::Off => 4,
        ErrorCode::Reserve => 5,
        ErrorCode::Invalid => 6,
        ErrorCode::Size => 7,
        ErrorCode::Cancel => 8,
        ErrorCode::NoMem => 9,
        ErrorCode::NoSupport => 10,
        ErrorCode::NoDevice => 11,
        ErrorCode::Uninstalled => 12,
        ErrorCode::NoAck => 13,
        ErrorCode::BadRVal => 1024,
    }
}

/// True iff `v` is the numeric value of some error code.
pub open spec fn is_error_code_value(v: u32) -> bool {
    exists|e: ErrorCode| error_code_value(e) == v
}

/// The error code whose numeric value is `v`, with the generic failure code
/// standing in for any value outside the enumeration.
pub open spec fn error_code_from_value(v: u32) -> ErrorCode {
    if v == 1 {
        ErrorCode::Fail
    } else if v == 2 {
        ErrorCode::Busy
    } else if v == 3 {
        ErrorCode::Already
    } else if v == 4 {
        ErrorCode::Off
    } else if v == 5 {
        ErrorCode::Reserve
    } else if v == 6 {
        ErrorCode::Invalid
    } else if v == 7 {
        ErrorCode::Size
    } else if v == 8 {
        ErrorCode::Cancel
    } else if v == 9 {
        ErrorCode::NoMem
    } else if v == 10 {
        ErrorCode::NoSupport
    } else if v == 11 {
        ErrorCode::NoDevice
    } else if v == 12 {
        ErrorCode::Uninstalled
    } else if v == 13 {
        ErrorCode::NoAck
    } else if v == 1024 {
        ErrorCode::BadRVal
    } else {
        ErrorCode::Fail
    }
}

impl ErrorCode {
    /// The numeric value the kernel uses for this error code.
    pub fn to_u32(self) -> (v: u32)
        ensures
            v == error_code_value(self),
    {
        match self {
            ErrorCode::Fail => 1,
            ErrorCode::Busy => 2,
            ErrorCode::Already => 3,
            ErrorCode::Off => 4,
            ErrorCode::Reserve => 5,
            ErrorCode::Invalid => 6,
            ErrorCode::Size => 7,
            ErrorCode::Cancel => 8,
            ErrorCode::NoMem => 9,
            ErrorCode::NoSupport => 10,
            ErrorCode::NoDevice => 11,
            ErrorCode::Uninstalled => 12,
            ErrorCode::NoAck => 13,
            ErrorCode::BadRVal => 1024,
        }
    }

    /// Decodes a numeric value into an error code, rejecting values outside
    /// the enumeration.
    pub fn try_from_u32(v: u32) -> (r: Option<ErrorCode>)
        ensures
            r == if is_error_code_value(v) {
                Some(error_code_from_value(v))
            } else {
                None::<ErrorCode>
            },
    {
        let r = match v {
            1 => Some(ErrorCode::Fail),
            2 => Some(ErrorCode::Busy),
            3 => Some(ErrorCode::Already),
            4 => Some(ErrorCode::Off),
            5 => Some(ErrorCode::Reserve),
            6 => Some(ErrorCode::Invalid),
            7 => Some(ErrorCode::Size),
            8 => Some(ErrorCode::Cancel),
            9 => Some(ErrorCode::NoMem),
            10 => Some(ErrorCode::NoSupport),
            11 => Some(ErrorCode::NoDevice),
            12 => Some(ErrorCode::Uninstalled),
            13 => Some(ErrorCode::NoAck),
            1024 => Some(ErrorCode::BadRVal),
            _ => None,
        };
        proof {
            if r is Some {
                assert(is_error_code_value(v)) by {
                    assert(error_code_value(r->0) == v);
                }
            } else {
                assert forall|e: ErrorCode| error_code_value(e) != v by {}
            }
        }
        r
    }

    /// Decodes a numeric value into an error code, mapping values outside the
    /// enumeration to the generic failure code.
    pub fn from_u32_or_fail(v: u32) -> (r: ErrorCode)
        ensures
            r == error_code_from_value(v),
    {
        match v {
            1 => ErrorCode::Fail,
            2 => ErrorCode::Busy,
            3 => ErrorCode::Already,
            4 => ErrorCode::Off,
            5 => ErrorCode::Reserve,
            6 => ErrorCode::Invalid,
            7 => ErrorCode::Size,
            8 => ErrorCode::Cancel,
            9 => ErrorCode::NoMem,
            10 => ErrorCode::NoSupport,
            11 => ErrorCode::NoDevice,
            12 => ErrorCode::Uninstalled,
            13 => ErrorCode::NoAck,
            1024 => ErrorCode::BadRVal,
            _ => ErrorCode::Fail,
        }
    }
}

/// Decoding a code's own numeric value yields that code back.
pub proof fn lemma_error_code_round_trip(e: ErrorCode)
    ensures
        error_code_from_value(error_code_value(e)) == e,
        is_error_code_value(error_code_value(e)),
{
}

} // verus!
