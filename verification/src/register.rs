//! The register codec used on every syscall boundary.
//!
//! A machine register holds a register-width numeric value and, on
//! capability-tagged hardware, may additionally carry a hardware-enforced
//! provenance tag. The tag cannot be rebuilt from a bare integer: a
//! pointer-derived register value must be constructed by deriving the tag
//! from an ambient capability, and any conversion through a plain integer is
//! explicitly lossy. This module models the address together with the
//! provenance the value was constructed with, so that contracts can state
//! that the facade never launders a pointer-derived value through an integer.

use vstd::prelude::*;
use crate::error_code::ErrorCode;
use crate::error_code::error_code_value;

verus! {

/// How a register value was derived, standing in for the hardware tag.
///
/// On plain integer-pointer kernels every register is effectively `Integer`;
/// on capability hardware `Data` marks a value derived from the ambient
/// default-data capability and `Function` one derived from the ambient
/// program-counter capability.
#[derive(Clone, Copy, Debug, PartialEq, Eq, Structural)]
pub enum Provenance {
    Integer,
    Data,
    Function,
}

/// A register-width value passed to or returned from the kernel.
#[derive(Clone, Copy, Debug, PartialEq, Eq, Structural)]
pub struct Register {
    pub addr: usize,
    pub provenance: Provenance,
}

/// The register that the plain integer `x` encodes to.
pub open spec fn register_from_usize(x: usize) -> Register {
    Register { addr: x, provenance: Provenance::Integer }
}

/// The plain integer a register decodes to; the tag, if any, is dropped.
pub open spec fn register_to_usize(r: Register) -> usize {
    r.addr
}

impl Register {
    /// Builds a register from a plain integer; it carries no tag.
    pub fn from_usize(value: usize) -> (r: Register)
        ensures
            r == register_from_usize(value),
    {
        Register { addr: value, provenance: Provenance::Integer }
    }

    /// Builds a register from a 32-bit integer; it carries no tag.
    pub fn from_u32(value: u32) -> (r: Register)
        ensures
            r == register_from_usize(value as usize),
    {
        Register { addr: value as usize, provenance: Provenance::Integer }
    }

    /// Builds a register holding an error code's numeric value.
    pub fn from_error_code(value: ErrorCode) -> (r: Register)
        ensures
            r == register_from_usize(error_code_value(value) as usize),
    {
        Register { addr: value.to_u32() as usize, provenance: Provenance::Integer }
    }

    /// Builds a data-pointer register for the given address, deriving the tag
    /// from the ambient default-data capability rather than from the bit
    /// pattern of the address.
    pub fn from_data_address(addr: usize) -> (r: Register)
        ensures
            r == (Register { addr, provenance: Provenance::Data }),
    {
        Register { addr, provenance: Provenance::Data }
    }

    /// Builds a callable-function register for the given address, deriving
    /// the tag from the ambient program-counter capability.
    pub fn from_function(fnptr: usize) -> (r: Register)
        ensures
            r == (Register { addr: fnptr, provenance: Provenance::Function }),
    {
        Register { addr: fnptr, provenance: Provenance::Function }
    }

    /// Reads the register as a plain integer, dropping any tag.
    pub fn as_usize(self) -> (r: usize)
        ensures
            r == register_to_usize(self),
    {
        self.addr
    }

    /// Casts this register to a `u32`, truncating it if it is larger than
    /// `u32::MAX`. Off the hot path, prefer the fallible `try_into_u32`.
    pub fn as_u32(self) -> (r: u32)
        ensures
            r == self.addr as u32,
            self.addr <= u32::MAX ==> r == self.addr,
    {
        proof {
            let a = self.addr;
            assert(a <= 0xffff_ffff ==> a as u32 == a) by (bit_vector);
        }
        self.addr as u32
    }

    /// Converts this register to a `u32`, rejecting values larger than
    /// `u32::MAX`. This is the conversion required outside the hot path.
    pub fn try_into_u32(self) -> (r: Option<u32>)
        ensures
            r == if self.addr <= u32::MAX {
                Some(self.addr as u32)
            } else {
                None::<u32>
            },
    {
        if self.addr <= u32::MAX as usize {
            Some(self.as_u32())
        } else {
            None
        }
    }
}

impl From<usize> for Register {
    fn from(value: usize) -> (r: Register) {
        Register::from_usize(value)
    }
}

impl vstd::std_specs::convert::FromSpecImpl<usize> for Register {
    open spec fn obeys_from_spec() -> bool {
        true
    }

    open spec fn from_spec(value: usize) -> Register {
        register_from_usize(value)
    }
}

impl From<u32> for Register {
    fn from(value: u32) -> (r: Register) {
        Register::from_u32(value)
    }
}

impl vstd::std_specs::convert::FromSpecImpl<u32> for Register {
    open spec fn obeys_from_spec() -> bool {
        true
    }

    open spec fn from_spec(value: u32) -> Register {
        register_from_usize(value as usize)
    }
}

impl From<ErrorCode> for Register {
    fn from(value: ErrorCode) -> (r: Register) {
        Register::from_error_code(value)
    }
}

impl vstd::std_specs::convert::FromSpecImpl<ErrorCode> for Register {
    open spec fn obeys_from_spec() -> bool {
        true
    }

    open spec fn from_spec(value: ErrorCode) -> Register {
        register_from_usize(error_code_value(value) as usize)
    }
}

impl From<Register> for usize {
    fn from(register: Register) -> (r: usize) {
        register.as_usize()
    }
}

impl vstd::std_specs::convert::FromSpecImpl<Register> for usize {
    open spec fn obeys_from_spec() -> bool {
        true
    }

    open spec fn from_spec(register: Register) -> usize {
        register_to_usize(register)
    }
}

/// Round trip: encoding any plain integer as a register and reading it back
/// recovers the integer exactly, and the value carries no tag.
pub proof fn lemma_register_round_trip(x: usize)
    ensures
        register_to_usize(register_from_usize(x)) == x,
        register_from_usize(x).provenance == Provenance::Integer,
{
}

/// Pointer-derived register values keep their provenance: reading the address
/// back does not disturb it, but rebuilding a register from that address
/// yields an untagged value, which is why the facade never round-trips a
/// pointer through a plain integer.
pub proof fn lemma_integer_round_trip_loses_tag(r: Register)
    ensures
        register_from_usize(register_to_usize(r)).addr == r.addr,
        register_from_usize(register_to_usize(r)).provenance == Provenance::Integer,
{
}

} // verus!
