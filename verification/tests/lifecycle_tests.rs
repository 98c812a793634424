//! Subscribe and Allow lifecycles against the simulated kernel: scoped
//! registration, revocation on release, exclusive claims, and the anomaly
//! hooks.

use libtock::default_config::{CountingConfig, DefaultConfig};
use libtock::error_code::ErrorCode;
use libtock::fake::{slot_key_exec, Kernel};
use libtock::register::Register;
use libtock::share::ShareScope;
use libtock::subscribe::{AnyId, FlagCell, Subscribe};
use libtock::allow_ro::AllowRo;
use libtock::allow_rw::AllowRw;

#[test]
fn subscribe_lifecycle() {
    let mut kernel = Kernel::new();
    kernel.add_driver(7);
    let mut scope = ShareScope::new();
    let mut config = DefaultConfig;
    let cell = FlagCell::new(false);

    let guard: Subscribe<7, 0> = Subscribe::enter(&mut scope).expect("slot should be free");
    let r = kernel.subscribe::<AnyId, _, _, 7, 0>(&guard, &mut config, &cell);
    assert_eq!(r, Ok(()));
    assert!(kernel.upcalls.contains_key(&slot_key_exec(7, 0)));

    // A second guard for the same slot is refused while the first lives.
    let second: Option<Subscribe<7, 0>> = Subscribe::enter(&mut scope);
    assert!(second.is_none());

    // Releasing the guard unsubscribes exactly this (driver, slot) pair.
    guard.release(&mut kernel, &mut scope);
    assert!(!kernel.upcalls.contains_key(&slot_key_exec(7, 0)));

    // The slot can be claimed again after the release.
    let third: Option<Subscribe<7, 0>> = Subscribe::enter(&mut scope);
    assert!(third.is_some());
}

#[test]
fn release_only_touches_its_own_slot() {
    let mut kernel = Kernel::new();
    kernel.add_driver(7);
    let mut scope = ShareScope::new();
    let mut config = DefaultConfig;
    let cell = FlagCell::new(false);

    let guard_a: Subscribe<7, 0> = Subscribe::enter(&mut scope).unwrap();
    let guard_b: Subscribe<7, 1> = Subscribe::enter(&mut scope).unwrap();
    kernel.subscribe::<AnyId, _, _, 7, 0>(&guard_a, &mut config, &cell).unwrap();
    kernel.subscribe::<AnyId, _, _, 7, 1>(&guard_b, &mut config, &cell).unwrap();

    guard_a.release(&mut kernel, &mut scope);
    assert!(!kernel.upcalls.contains_key(&slot_key_exec(7, 0)));
    assert!(kernel.upcalls.contains_key(&slot_key_exec(7, 1)));
    guard_b.release(&mut kernel, &mut scope);
    assert!(!kernel.upcalls.contains_key(&slot_key_exec(7, 1)));
}

#[test]
fn subscribe_to_missing_driver_fails() {
    let mut kernel = Kernel::new();
    let mut scope = ShareScope::new();
    let mut config = DefaultConfig;
    let cell = FlagCell::new(false);

    let guard: Subscribe<9, 0> = Subscribe::enter(&mut scope).unwrap();
    let r = kernel.subscribe::<AnyId, _, _, 9, 0>(&guard, &mut config, &cell);
    assert_eq!(r, Err(ErrorCode::NoDevice));
    assert!(!kernel.upcalls.contains_key(&slot_key_exec(9, 0)));
}

#[test]
fn unsubscribe_is_a_no_op_on_an_empty_slot() {
    let mut kernel = Kernel::new();
    kernel.add_driver(7);
    kernel.unsubscribe(7, 4);
    assert!(!kernel.upcalls.contains_key(&slot_key_exec(7, 4)));
}

#[test]
fn allow_rw_lifecycle() {
    let mut kernel = Kernel::new();
    kernel.add_driver(7);
    let mut scope = ShareScope::new();
    let mut config = DefaultConfig;
    let mut buffer: Vec<u8> = vec![1, 2, 3, 4];

    let guard: AllowRw<7, 0> = AllowRw::enter(&mut scope).expect("slot should be free");
    let r = kernel.allow_rw::<_, 7, 0>(&guard, &mut config, &mut buffer);
    assert_eq!(r, Ok(()));
    let slot = kernel.allows_rw.get(&slot_key_exec(7, 0)).copied().unwrap();
    assert_ne!(slot.0, 0);
    assert_eq!(slot.1, 4);

    let second: Option<AllowRw<7, 0>> = AllowRw::enter(&mut scope);
    assert!(second.is_none());

    // Revoking resets the kernel-visible slot to (address 0, length 0).
    let r = guard.release(&mut kernel, &mut scope);
    assert_eq!(r, Ok(()));
    assert_eq!(kernel.allows_rw.get(&slot_key_exec(7, 0)), None);
}

#[test]
fn allow_ro_lifecycle() {
    let mut kernel = Kernel::new();
    kernel.add_driver(7);
    let mut scope = ShareScope::new();
    let mut config = DefaultConfig;
    let buffer: Vec<u8> = vec![9, 9];

    let guard: AllowRo<7, 1> = AllowRo::enter(&mut scope).unwrap();
    assert_eq!(kernel.allow_ro::<_, 7, 1>(&guard, &mut config, &buffer), Ok(()));
    let slot = kernel.allows_ro.get(&slot_key_exec(7, 1)).copied().unwrap();
    assert_eq!(slot.1, 2);

    assert_eq!(guard.release(&mut kernel, &mut scope), Ok(()));
    assert_eq!(kernel.allows_ro.get(&slot_key_exec(7, 1)), None);
}

#[test]
fn allow_ro_32_shares_the_true_byte_length() {
    let mut kernel = Kernel::new();
    kernel.add_driver(7);
    let mut scope = ShareScope::new();
    let mut config = DefaultConfig;
    let buffer: Vec<u32> = vec![1, 2, 3];

    let guard: AllowRo<7, 2> = AllowRo::enter(&mut scope).unwrap();
    assert_eq!(kernel.allow_ro_32::<_, 7, 2>(&guard, &mut config, &buffer), Ok(()));
    let slot = kernel.allows_ro.get(&slot_key_exec(7, 2)).copied().unwrap();
    assert_eq!(slot.1, 12);
    guard.release(&mut kernel, &mut scope).unwrap();
}

#[test]
fn empty_buffer_share_is_not_the_zero_buffer() {
    let mut kernel = Kernel::new();
    kernel.add_driver(7);
    let mut scope = ShareScope::new();
    let mut config = DefaultConfig;
    let mut buffer: Vec<u8> = Vec::new();

    // A zero-length buffer at the object's (nonzero) address is a real
    // share; only (address 0, length 0) clears the slot.
    let guard: AllowRw<7, 5> = AllowRw::enter(&mut scope).unwrap();
    assert_eq!(kernel.allow_rw::<_, 7, 5>(&guard, &mut config, &mut buffer), Ok(()));
    let slot = kernel.allows_rw.get(&slot_key_exec(7, 5)).copied().unwrap();
    assert_ne!(slot.0, 0);
    assert_eq!(slot.1, 0);
    assert_eq!(guard.release(&mut kernel, &mut scope), Ok(()));
    assert_eq!(kernel.allows_rw.get(&slot_key_exec(7, 5)), None);
}

#[test]
fn unallow_without_share_reports_empty_slot() {
    let mut kernel = Kernel::new();
    kernel.add_driver(7);
    assert_eq!(kernel.unallow_rw(7, 3), Ok(()));
    assert_eq!(kernel.allows_rw.get(&slot_key_exec(7, 3)), None);
    assert_eq!(kernel.unallow_ro(7, 3), Ok(()));
    assert_eq!(kernel.unallow_rw(8, 0), Err(ErrorCode::NoDevice));
}

#[test]
fn nonnull_previous_upcall_invokes_the_hook_once() {
    let mut kernel = Kernel::new();
    kernel.add_driver(7);
    let mut scope = ShareScope::new();
    let mut config = CountingConfig::new();
    let cell = FlagCell::new(false);

    // A registration left behind by earlier code, installed over the raw
    // ABI with a nonzero data address.
    kernel.syscall4(
        libtock::syscall_class::SUBSCRIBE,
        Register::from_u32(7),
        Register::from_u32(0),
        Register::from_function(0x5000),
        Register::from_data_address(0x6000),
    );

    let guard: Subscribe<7, 0> = Subscribe::enter(&mut scope).unwrap();
    let r = kernel.subscribe::<AnyId, _, _, 7, 0>(&guard, &mut config, &cell);
    assert_eq!(r, Ok(()));
    assert_eq!(config.upcall_anomalies, 1);
    assert_eq!(config.buffer_anomalies, 0);

    // A fresh slot raises no anomaly.
    let guard2: Subscribe<7, 1> = Subscribe::enter(&mut scope).unwrap();
    let r = kernel.subscribe::<AnyId, _, _, 7, 1>(&guard2, &mut config, &cell);
    assert_eq!(r, Ok(()));
    assert_eq!(config.upcall_anomalies, 1);
}

#[test]
fn nonzero_previous_buffer_invokes_the_hook_once() {
    let mut kernel = Kernel::new();
    kernel.add_driver(7);
    let mut scope = ShareScope::new();
    let mut config = CountingConfig::new();
    let mut buffer: Vec<u8> = vec![5; 8];

    // A buffer left shared by earlier code.
    kernel.syscall4(
        libtock::syscall_class::ALLOW_RW,
        Register::from_u32(7),
        Register::from_u32(0),
        Register::from_data_address(0x7000),
        Register::from_usize(16),
    );

    let guard: AllowRw<7, 0> = AllowRw::enter(&mut scope).unwrap();
    let r = kernel.allow_rw::<_, 7, 0>(&guard, &mut config, &mut buffer);
    assert_eq!(r, Ok(()));
    assert_eq!(config.buffer_anomalies, 1);
    assert_eq!(config.upcall_anomalies, 0);
    guard.release(&mut kernel, &mut scope).unwrap();
}
