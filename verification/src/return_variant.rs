//! The return-variant tag read from the first result register of a syscall.
//!
//! The numeric tag values are part of the kernel ABI and must match the
//! kernel exactly. Tags in the failure family announce that the first payload
//! register carries an error code.

use vstd::prelude::*;

verus! {

pub const FAILURE: u32 = 0;
pub const FAILURE_U32: u32 = 1;
pub const FAILURE_2_U32: u32 = 2;
pub const FAILURE_U64: u32 = 3;
pub const SUCCESS: u32 = 128;
pub const SUCCESS_U32: u32 = 129;
pub const SUCCESS_2_U32: u32 = 130;
pub const SUCCESS_U64: u32 = 131;
pub const SUCCESS_3_U32: u32 = 132;
pub const SUCCESS_U32_U64: u32 = 133;

/// The tag decoded from register 0 of a multi-result syscall. It selects how
/// many of the remaining result registers are meaningful and whether the
/// first payload register is an error code.
#[derive(Clone, Copy, Debug, PartialEq, Eq, Structural)]
pub struct ReturnVariant {
    pub value: u32,
}

/// True iff `v` is one of the four failure tags.
pub open spec fn is_failure_value(v: u32) -> bool {
    v == FAILURE || v == FAILURE_U32 || v == FAILURE_2_U32 || v == FAILURE_U64
}

impl ReturnVariant {
    /// Wraps a raw tag value.
    pub fn new(value: u32) -> (r: ReturnVariant)
        ensures
            r.value == value,
    {
        ReturnVariant { value }
    }

    /// Reads the raw tag value back.
    pub fn value(self) -> (v: u32)
        ensures
            v == self.value,
    {
        self.value
    }

    /// True iff this tag is in the failure family, in which case the first
    /// payload register carries an error code.
    pub fn is_failure(self) -> (r: bool)
        ensures
            r == is_failure_value(self.value),
    {
        self.value == FAILURE || self.value == FAILURE_U32 || self.value == FAILURE_2_U32
            || self.value == FAILURE_U64
    }
}

impl From<u32> for ReturnVariant {
    fn from(value: u32) -> (r: ReturnVariant) {
        ReturnVariant::new(value)
    }
}

impl vstd::std_specs::convert::FromSpecImpl<u32> for ReturnVariant {
    open spec fn obeys_from_spec() -> bool {
        true
    }

    open spec fn from_spec(value: u32) -> ReturnVariant {
        ReturnVariant { value }
    }
}

} // verus!
