//! The command-return constructors, decoded by their matching accessors.

use libtock::command_return::{
    failure, failure_2_u32, failure_u32, failure_u64, get_u64_from_usizes, get_usizes_from_u64,
    success, success_2_u32, success_3_u32, success_u32, success_u32_u64, success_u64,
};
use libtock::error_code::ErrorCode;

#[test]
fn failure_test() {
    assert_eq!(failure(ErrorCode::Fail).get_failure(), Some(ErrorCode::Fail));
}

#[test]
fn failure_u32_test() {
    assert_eq!(
        failure_u32(ErrorCode::Busy, 42).get_failure_u32(),
        Some((ErrorCode::Busy, 42))
    );
}

#[test]
fn failure_2_u32_test() {
    assert_eq!(
        failure_2_u32(ErrorCode::Off, 31, 27).get_failure_2_u32(),
        Some((ErrorCode::Off, 31, 27))
    );
}

#[test]
fn failure_u64_test() {
    assert_eq!(
        failure_u64(ErrorCode::Size, 0x1111_2222_3333_4444).get_failure_u64(),
        Some((ErrorCode::Size, 0x1111_2222_3333_4444))
    );
}

#[test]
fn success_test() {
    assert!(success().is_success());
}

#[test]
fn success_u32_test() {
    assert_eq!(success_u32(1618).get_success_u32(), Some(1618));
}

#[test]
fn success_2_u32_test() {
    assert_eq!(success_2_u32(1, 2).get_success_2_u32(), Some((1, 2)));
}

#[test]
fn success_u64_test() {
    assert_eq!(
        success_u64(0x1111_2222_3333_4444).get_success_u64(),
        Some(0x1111_2222_3333_4444)
    );
}

#[test]
fn success_3_u32_test() {
    assert_eq!(success_3_u32(3, 5, 8).get_success_3_u32(), Some((3, 5, 8)));
}

#[test]
fn success_u32_u64_test() {
    assert_eq!(
        success_u32_u64(13, 0x1111_2222_3333_4444).get_success_u32_u64(),
        Some((13, 0x1111_2222_3333_4444))
    );
}

#[test]
fn non_matching_accessors_yield_none() {
    let cr = success_2_u32(1, 2);
    assert_eq!(cr.get_success_2_u32(), Some((1, 2)));
    assert_eq!(cr.get_failure(), None);
    assert_eq!(cr.get_failure_u32(), None);
    assert_eq!(cr.get_failure_2_u32(), None);
    assert_eq!(cr.get_failure_u64(), None);
    assert_eq!(cr.get_success_u32(), None);
    assert_eq!(cr.get_success_3_u32(), None);
    assert_eq!(cr.get_success_u64(), None);
    assert_eq!(cr.get_success_u32_u64(), None);
    assert!(!cr.is_success());

    let fr = failure(ErrorCode::Busy);
    assert_eq!(fr.get_failure(), Some(ErrorCode::Busy));
    assert_eq!(fr.get_failure_u32(), None);
    assert_eq!(fr.get_success_u32(), None);
    assert!(!fr.is_success());
}

#[test]
fn split_join_round_trips() {
    for v in [
        0u64,
        u64::MAX,
        0xffff_ffff_0000_0000,
        0x0000_0000_ffff_ffff,
        0x1111_2222_3333_4444,
        1,
        1 << 32,
    ] {
        let (lsb, msb) = get_usizes_from_u64(v);
        assert_eq!(get_u64_from_usizes(lsb, msb), v);
    }
    assert_eq!(get_usizes_from_u64(0x1111_2222_3333_4444), (0x3333_4444, 0x1111_2222));
}
