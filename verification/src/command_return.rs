//! The decoded 4-register result of a Command syscall.
//!
//! Register 0 carries a `ReturnVariant` tag; the tag alone decides which of
//! the remaining registers are meaningful. Every accessor checks the stored
//! tag against its own variant exactly: only the matching accessor yields the
//! payload, all others yield nothing, never a best-effort coercion. 64-bit
//! payloads travel as two half-word registers through the exact split/join
//! pair defined here.

use vstd::prelude::*;
use crate::error_code::ErrorCode;
use crate::error_code::error_code_value;
use crate::error_code::error_code_from_value;
use crate::return_variant::ReturnVariant;
use crate::return_variant::FAILURE;
use crate::return_variant::FAILURE_U32;
use crate::return_variant::FAILURE_2_U32;
use crate::return_variant::FAILURE_U64;
use crate::return_variant::SUCCESS;
use crate::return_variant::SUCCESS_U32;
use crate::return_variant::SUCCESS_2_U32;
use crate::return_variant::SUCCESS_U64;
use crate::return_variant::SUCCESS_3_U32;
use crate::return_variant::SUCCESS_U32_U64;

verus! {

/// The low 32 bits of a register value.
pub open spec fn lo32(x: usize) -> u32 {
    x as u32
}

/// Splits a 64-bit value into (least, most) significant half-words, each
/// carried in one register.
pub open spec fn spec_usizes_from_u64(value: u64) -> (usize, usize) {
    (((value & 0xffff_ffff) as usize), ((value >> 32) as usize))
}

/// Joins two registers carrying (least, most) significant half-words back
/// into the 64-bit value; only the low 32 bits of each register count.
pub open spec fn spec_u64_from_usizes(lsb: usize, msb: usize) -> u64 {
    ((lsb as u64) & 0xffff_ffff) | (((msb as u64) & 0xffff_ffff) << 32)
}

/// Splits a 64-bit value into (least, most) significant half-words.
pub fn get_usizes_from_u64(value: u64) -> (r: (usize, usize))
    ensures
        r == spec_usizes_from_u64(value),
{
    (((value & 0xffff_ffff) as usize), ((value >> 32) as usize))
}

/// Joins two half-word registers back into a 64-bit value.
pub fn get_u64_from_usizes(lsb: usize, msb: usize) -> (r: u64)
    ensures
        r == spec_u64_from_usizes(lsb, msb),
{
    ((lsb as u64) & 0xffff_ffff) | (((msb as u64) & 0xffff_ffff) << 32)
}

/// Split then join recovers every 64-bit value exactly, including both zero
/// half-words; the pair is used by request encoding and response decoding
/// alike.
pub proof fn lemma_u64_split_join(value: u64)
    ensures
        spec_u64_from_usizes(
            spec_usizes_from_u64(value).0,
            spec_usizes_from_u64(value).1,
        ) == value,
{
    assert({
        let l = (value & 0xffff_ffff) as usize;
        let m = (value >> 32) as usize;
        ((l as u64) & 0xffff_ffff) | (((m as u64) & 0xffff_ffff) << 32) == value
    }) by (bit_vector);
}

/// Join then split recovers both half-words whenever each fits in 32 bits,
/// which is the symmetric direction of the split/join pair.
pub proof fn lemma_u64_join_split(lsb: usize, msb: usize)
    requires
        lsb <= u32::MAX,
        msb <= u32::MAX,
    ensures
        spec_usizes_from_u64(spec_u64_from_usizes(lsb, msb)) == (lsb, msb),
{
    assert({
        let v = ((lsb as u64) & 0xffff_ffff) | (((msb as u64) & 0xffff_ffff) << 32);
        lsb <= 0xffff_ffff && msb <= 0xffff_ffff ==> ((v & 0xffff_ffff) as usize) == lsb
            && ((v >> 32) as usize) == msb
    }) by (bit_vector);
}

/// The decoded result of a Command syscall: a return-variant tag plus the
/// three remaining result registers exactly as the kernel produced them.
#[derive(Clone, Copy, Debug, PartialEq, Eq, Structural)]
pub struct CommandReturn {
    pub return_variant: ReturnVariant,
    pub r1: usize,
    pub r2: usize,
    pub r3: usize,
}

impl CommandReturn {
    /// Assembles a `CommandReturn` from the four raw result registers of a
    /// Command syscall. Decoding validates, so no shape is assumed here.
    pub fn new(return_variant: ReturnVariant, r1: usize, r2: usize, r3: usize) -> (r:
        CommandReturn)
        ensures
            r == (CommandReturn { return_variant, r1, r2, r3 }),
    {
        CommandReturn { return_variant, r1, r2, r3 }
    }

    /// The tag read from result register 0.
    pub fn return_variant(&self) -> (r: ReturnVariant)
        ensures
            r == self.return_variant,
    {
        self.return_variant
    }

    /// What the failure accessor yields: the error code iff the tag is
    /// exactly the plain failure tag.
    pub open spec fn decoded_failure(self) -> Option<ErrorCode> {
        if self.return_variant.value == FAILURE {
            Some(error_code_from_value(lo32(self.r1)))
        } else {
            None
        }
    }

    /// The error code, iff this is a plain failure.
    pub fn get_failure(&self) -> (r: Option<ErrorCode>)
        ensures
            r == self.decoded_failure(),
    {
        if self.return_variant.value == FAILURE {
            Some(ErrorCode::from_u32_or_fail(self.r1 as u32))
        } else {
            None
        }
    }

    /// What the failure-with-value accessor yields.
    pub open spec fn decoded_failure_u32(self) -> Option<(ErrorCode, u32)> {
        if self.return_variant.value == FAILURE_U32 {
            Some((error_code_from_value(lo32(self.r1)), lo32(self.r2)))
        } else {
            None
        }
    }

    /// The error code and payload, iff this is a failure with one value.
    pub fn get_failure_u32(&self) -> (r: Option<(ErrorCode, u32)>)
        ensures
            r == self.decoded_failure_u32(),
    {
        if self.return_variant.value == FAILURE_U32 {
            Some((ErrorCode::from_u32_or_fail(self.r1 as u32), self.r2 as u32))
        } else {
            None
        }
    }

    /// What the failure-with-two-values accessor yields.
    pub open spec fn decoded_failure_2_u32(self) -> Option<(ErrorCode, u32, u32)> {
        if self.return_variant.value == FAILURE_2_U32 {
            Some((error_code_from_value(lo32(self.r1)), lo32(self.r2), lo32(self.r3)))
        } else {
            None
        }
    }

    /// The error code and both payloads, iff this is a failure with two
    /// values.
    pub fn get_failure_2_u32(&self) -> (r: Option<(ErrorCode, u32, u32)>)
        ensures
            r == self.decoded_failure_2_u32(),
    {
        if self.return_variant.value == FAILURE_2_U32 {
            Some((ErrorCode::from_u32_or_fail(self.r1 as u32), self.r2 as u32, self.r3 as u32))
        } else {
            None
        }
    }

    /// What the failure-with-64-bit-value accessor yields.
    pub open spec fn decoded_failure_u64(self) -> Option<(ErrorCode, u64)> {
        if self.return_variant.value == FAILURE_U64 {
            Some((error_code_from_value(lo32(self.r1)), spec_u64_from_usizes(self.r2, self.r3)))
        } else {
            None
        }
    }

    /// The error code and wide payload, iff this is a failure with a 64-bit
    /// value.
    pub fn get_failure_u64(&self) -> (r: Option<(ErrorCode, u64)>)
        ensures
            r == self.decoded_failure_u64(),
    {
        if self.return_variant.value == FAILURE_U64 {
            Some((ErrorCode::from_u32_or_fail(self.r1 as u32), get_u64_from_usizes(
                self.r2,
                self.r3,
            )))
        } else {
            None
        }
    }

    /// True iff this is the plain success tag.
    pub fn is_success(&self) -> (r: bool)
        ensures
            r == (self.return_variant.value == SUCCESS),
    {
        self.return_variant.value == SUCCESS
    }

    /// What the success-with-value accessor yields.
    pub open spec fn decoded_success_u32(self) -> Option<u32> {
        if self.return_variant.value == SUCCESS_U32 {
            Some(lo32(self.r1))
        } else {
            None
        }
    }

    /// The payload, iff this is a success with one value.
    pub fn get_success_u32(&self) -> (r: Option<u32>)
        ensures
            r == self.decoded_success_u32(),
    {
        if self.return_variant.value == SUCCESS_U32 {
            Some(self.r1 as u32)
        } else {
            None
        }
    }

    /// What the success-with-two-values accessor yields.
    pub open spec fn decoded_success_2_u32(self) -> Option<(u32, u32)> {
        if self.return_variant.value == SUCCESS_2_U32 {
            Some((lo32(self.r1), lo32(self.r2)))
        } else {
            None
        }
    }

    /// Both payloads, iff this is a success with two values.
    pub fn get_success_2_u32(&self) -> (r: Option<(u32, u32)>)
        ensures
            r == self.decoded_success_2_u32(),
    {
        if self.return_variant.value == SUCCESS_2_U32 {
            Some((self.r1 as u32, self.r2 as u32))
        } else {
            None
        }
    }

    /// What the success-with-three-values accessor yields.
    pub open spec fn decoded_success_3_u32(self) -> Option<(u32, u32, u32)> {
        if self.return_variant.value == SUCCESS_3_U32 {
            Some((lo32(self.r1), lo32(self.r2), lo32(self.r3)))
        } else {
            None
        }
    }

    /// All three payloads, iff this is a success with three values.
    pub fn get_success_3_u32(&self) -> (r: Option<(u32, u32, u32)>)
        ensures
            r == self.decoded_success_3_u32(),
    {
        if self.return_variant.value == SUCCESS_3_U32 {
            Some((self.r1 as u32, self.r2 as u32, self.r3 as u32))
        } else {
            None
        }
    }

    /// What the success-with-64-bit-value accessor yields; the wide payload
    /// travels in registers 1 and 2 as (least, most) half-words.
    pub open spec fn decoded_success_u64(self) -> Option<u64> {
        if self.return_variant.value == SUCCESS_U64 {
            Some(spec_u64_from_usizes(self.r1, self.r2))
        } else {
            None
        }
    }

    /// The wide payload, iff this is a success with a 64-bit value.
    pub fn get_success_u64(&self) -> (r: Option<u64>)
        ensures
            r == self.decoded_success_u64(),
    {
        if self.return_variant.value == SUCCESS_U64 {
            Some(get_u64_from_usizes(self.r1, self.r2))
        } else {
            None
        }
    }

    /// What the success-with-value-and-64-bit-value accessor yields.
    pub open spec fn decoded_success_u32_u64(self) -> Option<(u32, u64)> {
        if self.return_variant.value == SUCCESS_U32_U64 {
            Some((lo32(self.r1), spec_u64_from_usizes(self.r2, self.r3)))
        } else {
            None
        }
    }

    /// The narrow and wide payloads, iff this is a success with one value
    /// and a 64-bit value.
    pub fn get_success_u32_u64(&self) -> (r: Option<(u32, u64)>)
        ensures
            r == self.decoded_success_u32_u64(),
    {
        if self.return_variant.value == SUCCESS_U32_U64 {
            Some((self.r1 as u32, get_u64_from_usizes(self.r2, self.r3)))
        } else {
            None
        }
    }
}

/// The registers a plain failure is built from.
pub open spec fn failure_spec(error_code: ErrorCode) -> CommandReturn {
    CommandReturn {
        return_variant: ReturnVariant { value: FAILURE },
        r1: error_code_value(error_code) as usize,
        r2: 0,
        r3: 0,
    }
}

/// Builds a plain failure result.
pub fn failure(error_code: ErrorCode) -> (r: CommandReturn)
    ensures
        r == failure_spec(error_code),
{
    CommandReturn::new(ReturnVariant::new(FAILURE), error_code.to_u32() as usize, 0, 0)
}

/// The registers a failure with one value is built from.
pub open spec fn failure_u32_spec(error_code: ErrorCode, value: u32) -> CommandReturn {
    CommandReturn {
        return_variant: ReturnVariant { value: FAILURE_U32 },
        r1: error_code_value(error_code) as usize,
        r2: value as usize,
        r3: 0,
    }
}

/// Builds a failure result carrying one value.
pub fn failure_u32(error_code: ErrorCode, value: u32) -> (r: CommandReturn)
    ensures
        r == failure_u32_spec(error_code, value),
{
    CommandReturn::new(
        ReturnVariant::new(FAILURE_U32),
        error_code.to_u32() as usize,
        value as usize,
        0,
    )
}

/// The registers a failure with two values is built from.
pub open spec fn failure_2_u32_spec(error_code: ErrorCode, value0: u32, value1: u32)
    -> CommandReturn {
    CommandReturn {
        return_variant: ReturnVariant { value: FAILURE_2_U32 },
        r1: error_code_value(error_code) as usize,
        r2: value0 as usize,
        r3: value1 as usize,
    }
}

/// Builds a failure result carrying two values.
pub fn failure_2_u32(error_code: ErrorCode, value0: u32, value1: u32) -> (r: CommandReturn)
    ensures
        r == failure_2_u32_spec(error_code, value0, value1),
{
    CommandReturn::new(
        ReturnVariant::new(FAILURE_2_U32),
        error_code.to_u32() as usize,
        value0 as usize,
        value1 as usize,
    )
}

/// The registers a failure with a 64-bit value is built from.
pub open spec fn failure_u64_spec(error_code: ErrorCode, value: u64) -> CommandReturn {
    CommandReturn {
        return_variant: ReturnVariant { value: FAILURE_U64 },
        r1: error_code_value(error_code) as usize,
        r2: spec_usizes_from_u64(value).0,
        r3: spec_usizes_from_u64(value).1,
    }
}

/// Builds a failure result carrying a 64-bit value.
pub fn failure_u64(error_code: ErrorCode, value: u64) -> (r: CommandReturn)
    ensures
        r == failure_u64_spec(error_code, value),
{
    let (lsb, msb) = get_usizes_from_u64(value);
    CommandReturn::new(ReturnVariant::new(FAILURE_U64), error_code.to_u32() as usize, lsb, msb)
}

/// The registers a plain success is built from.
pub open spec fn success_spec() -> CommandReturn {
    CommandReturn { return_variant: ReturnVariant { value: SUCCESS }, r1: 0, r2: 0, r3: 0 }
}

/// Builds a plain success result.
pub fn success() -> (r: CommandReturn)
    ensures
        r == success_spec(),
{
    CommandReturn::new(ReturnVariant::new(SUCCESS), 0, 0, 0)
}

/// The registers a success with one value is built from.
pub open spec fn success_u32_spec(value: u32) -> CommandReturn {
    CommandReturn {
        return_variant: ReturnVariant { value: SUCCESS_U32 },
        r1: value as usize,
        r2: 0,
        r3: 0,
    }
}

/// Builds a success result carrying one value.
pub fn success_u32(value: u32) -> (r: CommandReturn)
    ensures
        r == success_u32_spec(value),
{
    CommandReturn::new(ReturnVariant::new(SUCCESS_U32), value as usize, 0, 0)
}

/// The registers a success with two values is built from.
pub open spec fn success_2_u32_spec(value0: u32, value1: u32) -> CommandReturn {
    CommandReturn {
        return_variant: ReturnVariant { value: SUCCESS_2_U32 },
        r1: value0 as usize,
        r2: value1 as usize,
        r3: 0,
    }
}

/// Builds a success result carrying two values.
pub fn success_2_u32(value0: u32, value1: u32) -> (r: CommandReturn)
    ensures
        r == success_2_u32_spec(value0, value1),
{
    CommandReturn::new(ReturnVariant::new(SUCCESS_2_U32), value0 as usize, value1 as usize, 0)
}

/// The registers a success with a 64-bit value is built from.
pub open spec fn success_u64_spec(value: u64) -> CommandReturn {
    CommandReturn {
        return_variant: ReturnVariant { value: SUCCESS_U64 },
        r1: spec_usizes_from_u64(value).0,
        r2: spec_usizes_from_u64(value).1,
        r3: 0,
    }
}

/// Builds a success result carrying a 64-bit value.
pub fn success_u64(value: u64) -> (r: CommandReturn)
    ensures
        r == success_u64_spec(value),
{
    let (lsb, msb) = get_usizes_from_u64(value);
    CommandReturn::new(ReturnVariant::new(SUCCESS_U64), lsb, msb, 0)
}

/// The registers a success with three values is built from.
pub open spec fn success_3_u32_spec(value0: u32, value1: u32, value2: u32) -> CommandReturn {
    CommandReturn {
        return_variant: ReturnVariant { value: SUCCESS_3_U32 },
        r1: value0 as usize,
        r2: value1 as usize,
        r3: value2 as usize,
    }
}

/// Builds a success result carrying three values.
pub fn success_3_u32(value0: u32, value1: u32, value2: u32) -> (r: CommandReturn)
    ensures
        r == success_3_u32_spec(value0, value1, value2),
{
    CommandReturn::new(
        ReturnVariant::new(SUCCESS_3_U32),
        value0 as usize,
        value1 as usize,
        value2 as usize,
    )
}

/// The registers a success with one value and a 64-bit value is built from.
pub open spec fn success_u32_u64_spec(value0: u32, value1: u64) -> CommandReturn {
    CommandReturn {
        return_variant: ReturnVariant { value: SUCCESS_U32_U64 },
        r1: value0 as usize,
        r2: spec_usizes_from_u64(value1).0,
        r3: spec_usizes_from_u64(value1).1,
    }
}

/// Builds a success result carrying one value and a 64-bit value.
pub fn success_u32_u64(value0: u32, value1: u64) -> (r: CommandReturn)
    ensures
        r == success_u32_u64_spec(value0, value1),
{
    let (lsb, msb) = get_usizes_from_u64(value1);
    CommandReturn::new(ReturnVariant::new(SUCCESS_U32_U64), value0 as usize, lsb, msb)
}

/// A register carrying a 32-bit value reads back as that value.
pub proof fn lemma_lo32_of_u32(v: u32)
    ensures
        lo32(v as usize) == v,
{
    assert(v as usize as u32 == v) by (bit_vector);
}

/// Decode matrix, failure family: each constructor decoded by its matching
/// accessor returns the exact payload it was built from, and every
/// non-matching accessor on the same value returns nothing.
pub proof fn lemma_decode_matrix_failures(ec: ErrorCode, v0: u32, v1: u32, w: u64)
    ensures
        failure_spec(ec).decoded_failure() == Some(ec),
        failure_u32_spec(ec, v0).decoded_failure_u32() == Some((ec, v0)),
        failure_2_u32_spec(ec, v0, v1).decoded_failure_2_u32() == Some((ec, v0, v1)),
        failure_u64_spec(ec, w).decoded_failure_u64() == Some((ec, w)),
        failure_spec(ec).decoded_failure_u32() is None,
        failure_spec(ec).decoded_failure_2_u32() is None,
        failure_spec(ec).decoded_failure_u64() is None,
        failure_spec(ec).decoded_success_u32() is None,
        failure_spec(ec).decoded_success_2_u32() is None,
        failure_spec(ec).decoded_success_3_u32() is None,
        failure_spec(ec).decoded_success_u64() is None,
        failure_spec(ec).decoded_success_u32_u64() is None,
        failure_u32_spec(ec, v0).decoded_failure() is None,
        failure_2_u32_spec(ec, v0, v1).decoded_failure() is None,
        failure_u64_spec(ec, w).decoded_failure() is None,
{
    crate::error_code::lemma_error_code_round_trip(ec);
    lemma_lo32_of_u32(error_code_value(ec));
    lemma_lo32_of_u32(v0);
    lemma_lo32_of_u32(v1);
    lemma_u64_split_join(w);
}

/// Decode matrix, success family: each constructor decoded by its matching
/// accessor returns the exact payload it was built from, and every
/// non-matching accessor on the same value returns nothing.
pub proof fn lemma_decode_matrix_successes(v0: u32, v1: u32, v2: u32, w: u64)
    ensures
        success_u32_spec(v0).decoded_success_u32() == Some(v0),
        success_2_u32_spec(v0, v1).decoded_success_2_u32() == Some((v0, v1)),
        success_3_u32_spec(v0, v1, v2).decoded_success_3_u32() == Some((v0, v1, v2)),
        success_u64_spec(w).decoded_success_u64() == Some(w),
        success_u32_u64_spec(v0, w).decoded_success_u32_u64() == Some((v0, w)),
        success_spec().decoded_failure() is None,
        success_spec().decoded_failure_u32() is None,
        success_spec().decoded_failure_2_u32() is None,
        success_spec().decoded_failure_u64() is None,
        success_spec().decoded_success_u32() is None,
        success_spec().decoded_success_2_u32() is None,
        success_spec().decoded_success_3_u32() is None,
        success_spec().decoded_success_u64() is None,
        success_spec().decoded_success_u32_u64() is None,
        success_u32_spec(v0).decoded_success_2_u32() is None,
        success_2_u32_spec(v0, v1).decoded_success_3_u32() is None,
        success_u64_spec(w).decoded_success_u32_u64() is None,
        success_u32_u64_spec(v0, w).decoded_success_u64() is None,
{
    lemma_lo32_of_u32(v0);
    lemma_lo32_of_u32(v1);
    lemma_lo32_of_u32(v2);
    lemma_u64_split_join(w);
}

} // verus!
