//! Yield, memop, the break move and exit against the simulated kernel.

use libtock::error_code::ErrorCode;
use libtock::fake::{ExitCall, Kernel, UpcallEvent};
use libtock::register::Provenance;
use libtock::subscribe::Upcall;
use libtock::syscalls::YieldNoWaitReturn;

#[test]
fn yield_no_wait_polls() {
    let mut kernel = Kernel::new();
    kernel.add_driver(7);
    assert_eq!(kernel.yield_no_wait(), YieldNoWaitReturn::NoUpcall);

    let mut scope = libtock::share::ShareScope::new();
    let guard: libtock::subscribe::Subscribe<7, 0> =
        libtock::subscribe::Subscribe::enter(&mut scope).unwrap();
    let mut config = libtock::default_config::DefaultConfig;
    let cell = libtock::subscribe::FlagCell::new(false);
    kernel.subscribe::<libtock::subscribe::AnyId, _, _, 7, 0>(&guard, &mut config, &cell).unwrap();

    assert!(kernel.schedule_upcall(7, 0, 1, 2, 3));
    let expected = UpcallEvent { driver_num: 7, subscribe_num: 0, arg0: 1, arg1: 2, arg2: 3 };
    assert_eq!(kernel.yield_no_wait(), YieldNoWaitReturn::Upcall(expected));
    assert_eq!(kernel.yield_no_wait(), YieldNoWaitReturn::NoUpcall);
}

#[test]
fn yield_wait_dispatches_exactly_one() {
    let mut kernel = Kernel::new();
    kernel.add_driver(7);
    let mut scope = libtock::share::ShareScope::new();
    let guard: libtock::subscribe::Subscribe<7, 0> =
        libtock::subscribe::Subscribe::enter(&mut scope).unwrap();
    let mut config = libtock::default_config::DefaultConfig;
    let mut cell = libtock::subscribe::FlagCell::new(false);
    kernel.subscribe::<libtock::subscribe::AnyId, _, _, 7, 0>(&guard, &mut config, &cell).unwrap();

    assert!(kernel.schedule_upcall(7, 0, 1, 2, 3));
    assert!(kernel.schedule_upcall(7, 0, 4, 5, 6));

    let e = kernel.yield_wait();
    assert_eq!(e.arg0, 1);
    cell.upcall(e.arg0, e.arg1, e.arg2);
    assert!(cell.get());
    assert_eq!(kernel.pending.len(), 1);
}

#[test]
fn released_slots_drop_their_pending_upcalls() {
    let mut kernel = Kernel::new();
    kernel.add_driver(7);
    let mut scope = libtock::share::ShareScope::new();
    let guard: libtock::subscribe::Subscribe<7, 0> =
        libtock::subscribe::Subscribe::enter(&mut scope).unwrap();
    let mut config = libtock::default_config::DefaultConfig;
    let cell = libtock::subscribe::FlagCell::new(false);
    kernel.subscribe::<libtock::subscribe::AnyId, _, _, 7, 0>(&guard, &mut config, &cell).unwrap();

    assert!(kernel.schedule_upcall(7, 0, 1, 2, 3));
    guard.release(&mut kernel, &mut scope);
    assert_eq!(kernel.pending.len(), 0);
    assert_eq!(kernel.yield_no_wait(), YieldNoWaitReturn::NoUpcall);
}

#[test]
fn sbrk_moves_the_break_and_returns_the_previous_one() {
    let mut kernel = Kernel::new();
    assert_eq!(kernel.sbrk(16), Ok(0));
    assert_eq!(kernel.sbrk(16), Ok(16));
    assert_eq!(kernel.memory_break, 32);

    kernel.memory_break = usize::MAX - 3;
    assert_eq!(kernel.sbrk(4), Err(ErrorCode::NoMem));
    assert_eq!(kernel.memory_break, usize::MAX - 3);
    assert_eq!(kernel.sbrk(3), Ok(usize::MAX - 3));
}

#[test]
fn memop_results_keep_the_capability_tag() {
    let mut kernel = Kernel::new();
    kernel.memory_break = 0x1000;
    let r = kernel.memop(libtock::syscall_class::MEMOP_SBRK, 8).unwrap();
    assert_eq!(r.as_usize(), 0x1000);
    assert_eq!(r.provenance, Provenance::Data);

    assert_eq!(kernel.memop(99, 0), Err(ErrorCode::NoSupport));
}

#[test]
fn exit_terminate_records_the_exit() {
    let mut kernel = Kernel::new();
    kernel.exit_terminate(3);
    assert_eq!(kernel.exited, Some(ExitCall::Terminate(3)));
}

#[test]
fn exit_restart_records_the_exit() {
    let mut kernel = Kernel::new();
    kernel.exit_restart(0);
    assert_eq!(kernel.exited, Some(ExitCall::Restart(0)));
}
