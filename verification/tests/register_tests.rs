//! The register codec: round trips, truncation and tag provenance.

use libtock::error_code::ErrorCode;
use libtock::register::{Provenance, Register};

#[test]
fn usize_round_trip() {
    for x in [0usize, 1, 0x1234_5678, usize::MAX] {
        let r = Register::from_usize(x);
        assert_eq!(r.as_usize(), x);
        assert_eq!(r.provenance, Provenance::Integer);
        let via_trait: usize = Register::from(x).into();
        assert_eq!(via_trait, x);
    }
}

#[test]
fn u32_round_trip() {
    for x in [0u32, 1, 0x1234_5678, u32::MAX] {
        let r = Register::from_u32(x);
        assert_eq!(r.as_u32(), x);
        assert_eq!(r.as_usize(), x as usize);
        assert_eq!(r.try_into_u32(), Some(x));
    }
}

#[test]
fn error_code_register() {
    let r = Register::from_error_code(ErrorCode::NoMem);
    assert_eq!(r.as_usize(), 9);
    let r = Register::from(ErrorCode::BadRVal);
    assert_eq!(r.as_usize(), 1024);
}

#[test]
fn infallible_conversion_truncates_fallible_fails() {
    let big: usize = (u32::MAX as usize) + 1;
    let r = Register::from_usize(big);
    assert_eq!(r.as_u32(), 0);
    assert_eq!(r.try_into_u32(), None);

    let r = Register::from_usize(usize::MAX);
    assert_eq!(r.as_u32(), u32::MAX);
    assert_eq!(r.try_into_u32(), None);

    let small = Register::from_usize(77);
    assert_eq!(small.as_u32(), 77);
    assert_eq!(small.try_into_u32(), Some(77));
}

#[test]
fn pointer_derived_registers_carry_their_tag() {
    let data = Register::from_data_address(0x2000);
    assert_eq!(data.as_usize(), 0x2000);
    assert_eq!(data.provenance, Provenance::Data);

    let fun = Register::from_function(0x4000);
    assert_eq!(fun.as_usize(), 0x4000);
    assert_eq!(fun.provenance, Provenance::Function);

    // Rebuilding from the plain integer loses the tag: the address
    // survives, the provenance does not.
    let laundered = Register::from_usize(data.as_usize());
    assert_eq!(laundered.addr, data.addr);
    assert_eq!(laundered.provenance, Provenance::Integer);
}

#[test]
fn error_code_values_match_the_kernel() {
    let cases: [(ErrorCode, u32); 14] = [
        (ErrorCode::Fail, 1),
        (ErrorCode::Busy, 2),
        (ErrorCode::Already, 3),
        (ErrorCode::Off, 4),
        (ErrorCode::Reserve, 5),
        (ErrorCode::Invalid, 6),
        (ErrorCode::Size, 7),
        (ErrorCode::Cancel, 8),
        (ErrorCode::NoMem, 9),
        (ErrorCode::NoSupport, 10),
        (ErrorCode::NoDevice, 11),
        (ErrorCode::Uninstalled, 12),
        (ErrorCode::NoAck, 13),
        (ErrorCode::BadRVal, 1024),
    ];
    for (code, value) in cases {
        assert_eq!(code.to_u32(), value);
        assert_eq!(ErrorCode::try_from_u32(value), Some(code));
        assert_eq!(ErrorCode::from_u32_or_fail(value), code);
    }
    assert_eq!(ErrorCode::try_from_u32(0), None);
    assert_eq!(ErrorCode::try_from_u32(14), None);
    assert_eq!(ErrorCode::try_from_u32(1023), None);
    assert_eq!(ErrorCode::from_u32_or_fail(0), ErrorCode::Fail);
    assert_eq!(ErrorCode::from_u32_or_fail(9999), ErrorCode::Fail);
}
