//! The storing upcall implementations and the result view over them.

use libtock::error_code::ErrorCode;
use libtock::fake::Kernel;
use libtock::subscribe::{
    EmptyCell, FlagCell, OneU32Cell, OneUsizeCell, StandardResult, StandardResultArg1,
    StandardResultArg2, ThreeU32Cell, ThreeUsizeCell, TwoU32Cell, TwoUsizeCell, Upcall,
    UpcallResult,
};

#[test]
fn upcall_impls() {
    let mut cell_bool = FlagCell::new(false);
    cell_bool.upcall(1, 2, 3);
    assert!(cell_bool.get());

    let mut cell_empty = EmptyCell::new();
    cell_empty.upcall(1, 2, 3);
    assert_eq!(cell_empty.get(), Some(()));

    let mut cell_one = OneUsizeCell::new();
    cell_one.upcall(1, 2, 3);
    assert_eq!(cell_one.get(), Some((1,)));

    let mut cell_two = TwoUsizeCell::new();
    cell_two.upcall(1, 2, 3);
    assert_eq!(cell_two.get(), Some((1, 2)));

    let mut cell_three = ThreeUsizeCell::new();
    cell_three.upcall(1, 2, 3);
    assert_eq!(cell_three.get(), Some((1, 2, 3)));
}

#[test]
fn u32_cells_truncate() {
    let mut cell_one = OneU32Cell::new();
    cell_one.upcall(1, 2, 3);
    assert_eq!(cell_one.get(), Some((1,)));

    let mut cell_two = TwoU32Cell::new();
    cell_two.upcall(1, 2, 3);
    assert_eq!(cell_two.get(), Some((1, 2)));

    let mut cell_three = ThreeU32Cell::new();
    cell_three.upcall(1, 2, 3);
    assert_eq!(cell_three.get(), Some((1, 2, 3)));

    let mut wide = OneU32Cell::new();
    wide.upcall(usize::MAX, 0, 0);
    assert_eq!(wide.get(), Some((u32::MAX,)));
}

#[test]
fn flag_cell_sets_true_regardless_of_arguments() {
    let mut flag = FlagCell::new(false);
    flag.upcall(0, 0, 0);
    assert!(flag.get());

    let mut flag = FlagCell::new(false);
    flag.upcall(usize::MAX, 7, 9);
    assert!(flag.get());
}

#[test]
fn upcall_result_decodes_status() {
    let mut cell = StandardResult::new();
    assert_eq!(cell.upcall_result(), None);
    cell.upcall(0, 0, 0);
    assert_eq!(cell.upcall_result(), Some(Ok(())));
    cell.upcall(2, 0, 0);
    assert_eq!(cell.upcall_result(), Some(Err(ErrorCode::Busy)));
    cell.upcall(999_999, 0, 0);
    assert_eq!(cell.upcall_result(), Some(Err(ErrorCode::Fail)));
    cell.reset();
    assert_eq!(cell.upcall_result(), None);

    let mut cell = StandardResultArg1::new();
    cell.upcall(0, 17, 0);
    assert_eq!(cell.upcall_result(), Some(Ok(17)));

    let mut cell = StandardResultArg2::new();
    cell.upcall(0, 17, 23);
    assert_eq!(cell.upcall_result(), Some(Ok((17, 23))));
    cell.upcall(4, 17, 23);
    assert_eq!(cell.upcall_result(), Some(Err(ErrorCode::Off)));
}

#[test]
fn upcall_result_yield_waits_for_the_slot() {
    let mut kernel = Kernel::new();
    kernel.add_driver(7);
    let mut scope = libtock::share::ShareScope::new();
    let guard: libtock::subscribe::Subscribe<7, 0> =
        libtock::subscribe::Subscribe::enter(&mut scope).unwrap();
    let mut config = libtock::default_config::DefaultConfig;
    let mut cell = StandardResultArg1::new();
    kernel
        .subscribe::<libtock::subscribe::AnyId, _, _, 7, 0>(&guard, &mut config, &cell)
        .unwrap();

    assert!(kernel.schedule_upcall(7, 0, 0, 42, 0));
    let r = cell.upcall_result_yield(&mut kernel, 7, 0);
    assert_eq!(r, Ok(42));

    cell.reset();
    assert!(kernel.schedule_upcall(7, 0, 6, 0, 0));
    let r = cell.upcall_result_yield(&mut kernel, 7, 0);
    assert_eq!(r, Err(ErrorCode::Invalid));
}

#[test]
fn upcall_result_yield_requeues_events_for_other_slots() {
    let mut kernel = Kernel::new();
    kernel.add_driver(7);
    let mut scope = libtock::share::ShareScope::new();
    let guard_a: libtock::subscribe::Subscribe<7, 0> =
        libtock::subscribe::Subscribe::enter(&mut scope).unwrap();
    let guard_b: libtock::subscribe::Subscribe<7, 1> =
        libtock::subscribe::Subscribe::enter(&mut scope).unwrap();
    let mut config = libtock::default_config::DefaultConfig;
    let mut cell_a = StandardResultArg1::new();
    let cell_b = StandardResultArg1::new();
    kernel
        .subscribe::<libtock::subscribe::AnyId, _, _, 7, 0>(&guard_a, &mut config, &cell_a)
        .unwrap();
    kernel
        .subscribe::<libtock::subscribe::AnyId, _, _, 7, 1>(&guard_b, &mut config, &cell_b)
        .unwrap();

    // The other slot's event sits in front; the wait walks past it without
    // losing it.
    assert!(kernel.schedule_upcall(7, 1, 0, 9, 0));
    assert!(kernel.schedule_upcall(7, 0, 0, 5, 0));
    assert_eq!(cell_a.upcall_result_yield(&mut kernel, 7, 0), Ok(5));
    assert_eq!(kernel.pending.len(), 1);
    assert_eq!(kernel.pending[0].subscribe_num, 1);
    assert_eq!(kernel.pending[0].arg1, 9);
}

#[test]
fn scheduling_needs_a_registration() {
    let mut kernel = Kernel::new();
    kernel.add_driver(7);
    assert!(!kernel.schedule_upcall(7, 0, 1, 2, 3));
}
