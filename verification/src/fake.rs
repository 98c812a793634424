//! A simulated kernel.
//!
//! The simulation keeps the kernel-visible state of one process — the upcall
//! registrations, the shared buffers, the queue of pending upcalls, the
//! memory break and the exit status — together with a small LED driver, and
//! answers raw syscalls over the same register-passing ABI the real kernel
//! uses. The syscall facade is verified against the contracts given here,
//! and tests drive the facade against this kernel.
//!
//! Addresses are opaque in the model: a registration or a shared buffer is
//! recorded by the numeric address registers the process passed, and the
//! address `0` is the null upcall and the empty buffer, exactly as on the
//! wire.

use vstd::prelude::*;
use std::collections::HashMap;
use crate::register::Register;
use crate::register::Provenance;
use crate::register::register_from_usize;
use crate::error_code::ErrorCode;
use crate::error_code::error_code_value;
use crate::command_return::CommandReturn;
use crate::command_return::lo32;
use crate::command_return::failure_spec;
use crate::command_return::success_spec;
use crate::command_return::success_u32_spec;
use crate::syscall_class::SUBSCRIBE;
use crate::syscall_class::COMMAND;
use crate::syscall_class::ALLOW_RW;
use crate::syscall_class::ALLOW_RO;
use crate::syscall_class::MEMOP;
use crate::syscall_class::EXIT;
use crate::syscall_class::EXIT_TERMINATE;
use crate::syscall_class::EXIT_RESTART;
use crate::syscall_class::MEMOP_SBRK;

verus! {

broadcast use vstd::std_specs::hash::group_hash_axioms;

/// The driver number of the simulated LED driver.
pub const LED_DRIVER_NUM: u32 = 2;

/// LED driver command: report how many LEDs exist.
pub const LEDS_COUNT: u32 = 0;

/// LED driver command: turn one LED on.
pub const LED_ON: u32 = 1;

/// LED driver command: turn one LED off.
pub const LED_OFF: u32 = 2;

/// LED driver command: toggle one LED.
pub const LED_TOGGLE: u32 = 3;

/// One upcall queued by the kernel but not yet delivered: the slot it was
/// scheduled for and the three argument registers it will carry.
#[derive(Clone, Copy, Debug, PartialEq, Eq, Structural)]
pub struct UpcallEvent {
    pub driver_num: u32,
    pub subscribe_num: u32,
    pub arg0: usize,
    pub arg1: usize,
    pub arg2: usize,
}

/// How the process exited, if it has.
#[derive(Clone, Copy, Debug, PartialEq, Eq, Structural)]
pub enum ExitCall {
    Terminate(u32),
    Restart(u32),
}

/// The key under which a (driver number, slot number) pair is stored.
pub open spec fn slot_key(driver_num: u32, num: u32) -> u64 {
    ((driver_num as u64) << 32) | (num as u64)
}

/// The driver number a slot key was built from.
pub open spec fn key_driver(k: u64) -> u32 {
    (k >> 32) as u32
}

/// Computes the key of a (driver number, slot number) pair.
pub fn slot_key_exec(driver_num: u32, num: u32) -> (k: u64)
    ensures
        k == slot_key(driver_num, num),
{
    ((driver_num as u64) << 32) | (num as u64)
}

/// Distinct slots have distinct keys, and a key remembers its driver.
pub proof fn lemma_slot_key_injective(d1: u32, n1: u32, d2: u32, n2: u32)
    ensures
        (slot_key(d1, n1) == slot_key(d2, n2)) <==> (d1 == d2 && n1 == n2),
        key_driver(slot_key(d1, n1)) == d1,
{
    assert((((d1 as u64) << 32) | (n1 as u64)) == (((d2 as u64) << 32) | (n2 as u64)) <==> (d1
        == d2 && n1 == n2)) by (bit_vector);
    assert(((((d1 as u64) << 32) | (n1 as u64)) >> 32) as u32 == d1) by (bit_vector);
}

/// The kernel-visible state of one process, plus the simulated drivers.
pub struct Kernel {
    /// Driver numbers of generic do-nothing drivers added for tests.
    pub drivers: Vec<u32>,
    /// The LED driver's lamp states, if the driver is installed.
    pub leds: Option<Vec<bool>>,
    /// Registered upcalls by slot key: (function address, application data
    /// address), both nonzero addresses the process passed.
    pub upcalls: HashMap<u64, (usize, usize)>,
    /// Read-write shared buffers by slot key: (address, length).
    pub allows_rw: HashMap<u64, (usize, usize)>,
    /// Read-only shared buffers by slot key: (address, length).
    pub allows_ro: HashMap<u64, (usize, usize)>,
    /// Upcalls scheduled but not yet delivered, oldest first.
    pub pending: Vec<UpcallEvent>,
    /// The current process memory break.
    pub memory_break: usize,
    /// Set once the process has issued an Exit syscall; no further syscalls
    /// are possible afterwards.
    pub exited: Option<ExitCall>,
}

impl Kernel {
    /// The LED states as a sequence, if the LED driver is installed.
    pub open spec fn leds_view(self) -> Option<Seq<bool>> {
        match self.leds {
            Some(v) => Some(v@),
            None => None,
        }
    }

    /// True iff a driver with this number is installed.
    pub open spec fn driver_exists(self, driver_num: u32) -> bool {
        (driver_num == LED_DRIVER_NUM && self.leds is Some) || self.drivers@.contains(driver_num)
    }

    /// The (function address, data address) pair registered for a subscribe
    /// slot; (0, 0) — the null upcall — if nothing is registered.
    pub open spec fn upcall_entry(self, driver_num: u32, subscribe_num: u32) -> (usize, usize) {
        if self.upcalls@.contains_key(slot_key(driver_num, subscribe_num)) {
            self.upcalls@[slot_key(driver_num, subscribe_num)]
        } else {
            (0, 0)
        }
    }

    /// True iff an upcall is registered for this subscribe slot.
    pub open spec fn upcall_registered(self, driver_num: u32, subscribe_num: u32) -> bool {
        self.upcalls@.contains_key(slot_key(driver_num, subscribe_num))
    }

    /// The (address, length) of the read-write buffer shared on a slot;
    /// (0, 0) — the empty buffer — if none is shared.
    pub open spec fn allow_rw_slot(self, driver_num: u32, buffer_num: u32) -> (usize, usize) {
        if self.allows_rw@.contains_key(slot_key(driver_num, buffer_num)) {
            self.allows_rw@[slot_key(driver_num, buffer_num)]
        } else {
            (0, 0)
        }
    }

    /// The (address, length) of the read-only buffer shared on a slot;
    /// (0, 0) — the empty buffer — if none is shared.
    pub open spec fn allow_ro_slot(self, driver_num: u32, buffer_num: u32) -> (usize, usize) {
        if self.allows_ro@.contains_key(slot_key(driver_num, buffer_num)) {
            self.allows_ro@[slot_key(driver_num, buffer_num)]
        } else {
            (0, 0)
        }
    }

    /// True until the process issues an Exit syscall.
    pub open spec fn running(self) -> bool {
        self.exited is None
    }

    /// Internal consistency: the LED count fits the count register,
    /// registrations and shared buffers only exist for installed drivers,
    /// and every pending upcall is for a registered slot.
    pub open spec fn wf(self) -> bool {
        &&& (self.leds_view() is Some ==> self.leds_view()->0.len() <= u32::MAX)
        &&& (forall|k: u64|
            #[trigger] self.upcalls@.contains_key(k) ==> self.driver_exists(key_driver(k)))
        &&& (forall|k: u64|
            #[trigger] self.allows_rw@.contains_key(k) ==> self.driver_exists(key_driver(k)))
        &&& (forall|k: u64|
            #[trigger] self.allows_ro@.contains_key(k) ==> self.driver_exists(key_driver(k)))
        &&& (forall|i: int|
            0 <= i < self.pending@.len() ==> self.upcall_registered(
                (#[trigger] self.pending@[i]).driver_num,
                self.pending@[i].subscribe_num,
            ))
    }

    /// A fresh kernel: no drivers, nothing registered, nothing shared,
    /// nothing pending, and the process running.
    pub fn new() -> (k: Kernel)
        ensures
            k.drivers@ == Seq::<u32>::empty(),
            k.leds is None,
            k.upcalls@ == Map::<u64, (usize, usize)>::empty(),
            k.allows_rw@ == Map::<u64, (usize, usize)>::empty(),
            k.allows_ro@ == Map::<u64, (usize, usize)>::empty(),
            k.pending@ == Seq::<UpcallEvent>::empty(),
            k.memory_break == 0,
            k.running(),
            k.wf(),
    {
        Kernel {
            drivers: Vec::new(),
            leds: None,
            upcalls: HashMap::new(),
            allows_rw: HashMap::new(),
            allows_ro: HashMap::new(),
            pending: Vec::new(),
            memory_break: 0,
            exited: None,
        }
    }

    /// Installs the LED driver with the given number of LEDs, all off.
    pub fn add_leds(&mut self, num_leds: u32)
        requires
            old(self).wf(),
        ensures
            final(self).wf(),
            final(self).leds_view() == Some(Seq::new(num_leds as nat, |i: int| false)),
            final(self).drivers@ == old(self).drivers@,
            final(self).upcalls@ == old(self).upcalls@,
            final(self).allows_rw@ == old(self).allows_rw@,
            final(self).allows_ro@ == old(self).allows_ro@,
            final(self).pending@ == old(self).pending@,
            final(self).memory_break == old(self).memory_break,
            final(self).exited == old(self).exited,
    {
        let mut v: Vec<bool> = Vec::new();
        let mut i: u32 = 0;
        while i < num_leds
            invariant
                i <= num_leds,
                v@ =~= Seq::new(i as nat, |j: int| false),
            decreases num_leds - i,
        {
            v.push(false);
            i = i + 1;
        }
        self.leds = Some(v);
        proof {
            assert(self.leds_view() =~= Some(Seq::new(num_leds as nat, |i: int| false)));
            assert forall|k: u64| #[trigger] self.upcalls@.contains_key(k) implies self
                .driver_exists(key_driver(k)) by {
                assert(old(self).driver_exists(key_driver(k)));
            }
            assert forall|k: u64| #[trigger] self.allows_rw@.contains_key(k) implies self
                .driver_exists(key_driver(k)) by {
                assert(old(self).driver_exists(key_driver(k)));
            }
            assert forall|k: u64| #[trigger] self.allows_ro@.contains_key(k) implies self
                .driver_exists(key_driver(k)) by {
                assert(old(self).driver_exists(key_driver(k)));
            }
        }
    }

    /// Installs a generic driver that accepts registrations and buffers and
    /// answers every command with a plain success.
    pub fn add_driver(&mut self, driver_num: u32)
        requires
            old(self).wf(),
        ensures
            final(self).wf(),
            final(self).drivers@ == old(self).drivers@.push(driver_num),
            final(self).driver_exists(driver_num),
            final(self).leds == old(self).leds,
            final(self).upcalls@ == old(self).upcalls@,
            final(self).allows_rw@ == old(self).allows_rw@,
            final(self).allows_ro@ == old(self).allows_ro@,
            final(self).pending@ == old(self).pending@,
            final(self).memory_break == old(self).memory_break,
            final(self).exited == old(self).exited,
    {
        self.drivers.push(driver_num);
        proof {
            assert(self.drivers@ == old(self).drivers@.push(driver_num));
            assert(self.drivers@[old(self).drivers@.len() as int] == driver_num);
            assert(self.drivers@.contains(driver_num));
            assert forall|d: u32| old(self).driver_exists(d) implies self.driver_exists(d) by {
                if old(self).drivers@.contains(d) {
                    let i = choose|i: int|
                        0 <= i < old(self).drivers@.len() && old(self).drivers@[i] == d;
                    assert(self.drivers@[i] == d);
                }
            }
        }
    }

    /// True iff a driver with this number is installed.
    pub fn has_driver(&self, driver_num: u32) -> (r: bool)
        ensures
            r == self.driver_exists(driver_num),
    {
        if driver_num == LED_DRIVER_NUM && self.leds.is_some() {
            return true;
        }
        let n = self.drivers.len();
        let mut i: usize = 0;
        while i < n
            invariant
                i <= n,
                n == self.drivers@.len(),
                forall|j: int| 0 <= j < i ==> self.drivers@[j] != driver_num,
            decreases n - i,
        {
            if self.drivers[i] == driver_num {
                return true;
            }
            i = i + 1;
        }
        false
    }

    /// Reads one LED's state, if the LED driver is installed and the index
    /// is in range.
    pub fn get_led(&self, led: u32) -> (r: Option<bool>)
        ensures
            r == if self.leds_view() is Some && (led as int) < self.leds_view()->0.len() {
                Some(self.leds_view()->0[led as int])
            } else {
                None::<bool>
            },
    {
        match &self.leds {
            Some(v) => {
                if (led as usize) < v.len() {
                    Some(v[led as usize])
                } else {
                    None
                }
            },
            None => None,
        }
    }

    /// Queues an upcall for a slot, as a driver would after an event. The
    /// kernel only queues upcalls for registered slots; an upcall for an
    /// unregistered slot is dropped and `false` returned.
    pub fn schedule_upcall(&mut self, driver_num: u32, subscribe_num: u32, arg0: usize, arg1: usize, arg2: usize) -> (queued: bool)
        requires
            old(self).wf(),
        ensures
            final(self).wf(),
            queued == old(self).upcall_registered(driver_num, subscribe_num),
            final(self).pending@ == if queued {
                old(self).pending@.push(
                    UpcallEvent { driver_num, subscribe_num, arg0, arg1, arg2 },
                )
            } else {
                old(self).pending@
            },
            final(self).drivers@ == old(self).drivers@,
            final(self).leds == old(self).leds,
            final(self).upcalls@ == old(self).upcalls@,
            final(self).allows_rw@ == old(self).allows_rw@,
            final(self).allows_ro@ == old(self).allows_ro@,
            final(self).memory_break == old(self).memory_break,
            final(self).exited == old(self).exited,
    {
        let key = slot_key_exec(driver_num, subscribe_num);
        if self.upcalls.contains_key(&key) {
            self.pending.push(UpcallEvent { driver_num, subscribe_num, arg0, arg1, arg2 });
            true
        } else {
            false
        }
    }
}

/// True iff the event is aimed at the given slot.
pub open spec fn pending_matches(e: UpcallEvent, driver_num: u32, subscribe_num: u32) -> bool {
    e.driver_num == driver_num && e.subscribe_num == subscribe_num
}

/// True iff some pending event is aimed at the given slot.
pub open spec fn pending_contains_for(pending: Seq<UpcallEvent>, driver_num: u32, subscribe_num: u32) -> bool {
    exists|i: int|
        0 <= i < pending.len() && pending_matches(
            #[trigger] pending[i],
            driver_num,
            subscribe_num,
        )
}

/// How far into the queue the first event for the given slot sits; the
/// queue length if there is none. Blocking waits walk the queue towards it.
pub open spec fn first_match_from(pending: Seq<UpcallEvent>, driver_num: u32, subscribe_num: u32) -> nat
    decreases pending.len(),
{
    if pending.len() == 0 {
        0
    } else if pending_matches(pending[0], driver_num, subscribe_num) {
        0
    } else {
        1 + first_match_from(pending.skip(1), driver_num, subscribe_num)
    }
}

/// The oldest pending event for the given slot; immaterial when there is
/// none.
pub open spec fn first_match_event(pending: Seq<UpcallEvent>, driver_num: u32, subscribe_num: u32) -> UpcallEvent
    decreases pending.len(),
{
    if pending.len() == 0 {
        UpcallEvent { driver_num, subscribe_num, arg0: 0, arg1: 0, arg2: 0 }
    } else if pending_matches(pending[0], driver_num, subscribe_num) {
        pending[0]
    } else {
        first_match_event(pending.skip(1), driver_num, subscribe_num)
    }
}

/// Re-queueing an event at the back neither moves nor changes the first
/// event for a slot that already has one in the queue.
pub proof fn lemma_first_match_push(pending: Seq<UpcallEvent>, driver_num: u32, subscribe_num: u32, e: UpcallEvent)
    requires
        pending_contains_for(pending, driver_num, subscribe_num),
    ensures
        first_match_from(pending.push(e), driver_num, subscribe_num) == first_match_from(
            pending,
            driver_num,
            subscribe_num,
        ),
        first_match_event(pending.push(e), driver_num, subscribe_num) == first_match_event(
            pending,
            driver_num,
            subscribe_num,
        ),
    decreases pending.len(),
{
    let wi = choose|i: int|
        0 <= i < pending.len() && pending_matches(
            #[trigger] pending[i],
            driver_num,
            subscribe_num,
        );
    assert(pending.push(e)[0] == pending[0]);
    if pending_matches(pending[0], driver_num, subscribe_num) {
    } else {
        assert(wi >= 1);
        assert(pending.skip(1)[wi - 1] == pending[wi]);
        assert(pending_contains_for(pending.skip(1), driver_num, subscribe_num));
        assert(pending.push(e).skip(1) =~= pending.skip(1).push(e));
        lemma_first_match_push(pending.skip(1), driver_num, subscribe_num, e);
    }
}

/// The two kernels agree on everything but the pending upcall queue.
pub open spec fn unchanged_except_pending(pre: Kernel, post: Kernel) -> bool {
    &&& post.drivers@ == pre.drivers@
    &&& post.leds == pre.leds
    &&& post.upcalls@ == pre.upcalls@
    &&& post.allows_rw@ == pre.allows_rw@
    &&& post.allows_ro@ == pre.allows_ro@
    &&& post.memory_break == pre.memory_break
    &&& post.exited == pre.exited
}

/// Keeps every pending upcall except those for the given slot.
pub open spec fn keeps_other_slots(driver_num: u32, subscribe_num: u32) -> spec_fn(
    UpcallEvent,
) -> bool {
    |e: UpcallEvent| !(e.driver_num == driver_num && e.subscribe_num == subscribe_num)
}

/// The four result registers that encode a command result on the wire.
pub open spec fn command_return_registers(cr: CommandReturn) -> (Register, Register, Register, Register) {
    (
        register_from_usize(cr.return_variant.value as usize),
        register_from_usize(cr.r1),
        register_from_usize(cr.r2),
        register_from_usize(cr.r3),
    )
}

/// The failure answer of a registration-class syscall aimed at a driver that
/// is not installed.
pub open spec fn no_device_registers() -> (Register, Register, Register, Register) {
    (
        register_from_usize(crate::return_variant::FAILURE_2_U32 as usize),
        register_from_usize(error_code_value(ErrorCode::NoDevice) as usize),
        register_from_usize(0),
        register_from_usize(0),
    )
}

/// What a command to the LED driver answers, given the lamp states.
pub open spec fn leds_command_result(leds: Seq<bool>, command_num: u32, arg0: usize) -> CommandReturn {
    if command_num == LEDS_COUNT {
        success_u32_spec(leds.len() as u32)
    } else if command_num == LED_ON || command_num == LED_OFF || command_num == LED_TOGGLE {
        if arg0 < leds.len() {
            success_spec()
        } else {
            failure_spec(ErrorCode::Invalid)
        }
    } else {
        failure_spec(ErrorCode::NoSupport)
    }
}

/// The lamp states after a command to the LED driver; a command with an
/// out-of-range index changes nothing.
pub open spec fn leds_after_command(leds: Seq<bool>, command_num: u32, arg0: usize) -> Seq<bool> {
    if arg0 < leds.len() {
        if command_num == LED_ON {
            leds.update(arg0 as int, true)
        } else if command_num == LED_OFF {
            leds.update(arg0 as int, false)
        } else if command_num == LED_TOGGLE {
            leds.update(arg0 as int, !leds[arg0 as int])
        } else {
            leds
        }
    } else {
        leds
    }
}

/// The result a Command syscall decodes to: the LED driver answers as
/// `leds_command_result` says, a generic driver answers plain success, and a
/// missing driver answers failure with the no-device code.
pub open spec fn command_result(pre: Kernel, driver_num: u32, command_num: u32, arg0: usize, arg1: usize) -> CommandReturn {
    if driver_num == LED_DRIVER_NUM && pre.leds_view() is Some {
        leds_command_result(pre.leds_view()->0, command_num, arg0)
    } else if pre.drivers@.contains(driver_num) {
        success_spec()
    } else {
        failure_spec(ErrorCode::NoDevice)
    }
}

/// The lamp states after a Command syscall.
pub open spec fn command_leds_after(pre: Kernel, driver_num: u32, command_num: u32, arg0: usize) -> Option<Seq<bool>> {
    if driver_num == LED_DRIVER_NUM && pre.leds_view() is Some {
        Some(leds_after_command(pre.leds_view()->0, command_num, arg0))
    } else {
        pre.leds_view()
    }
}

/// How a Subscribe syscall answers and changes the registration table: a
/// missing driver fails with no-device and changes nothing; otherwise the
/// call succeeds, a null upcall function address unregisters the slot and
/// drops its pending upcalls, any other address registers (function, data),
/// and the success payload carries the previous registration's data and
/// function addresses — (0, 0) for a previously empty slot.
pub open spec fn subscribe_transition(pre: Kernel, post: Kernel, driver_num: u32, subscribe_num: u32, fcn_addr: usize, data_addr: usize, r: (Register, Register, Register, Register)) -> bool {
    let key = slot_key(driver_num, subscribe_num);
    let prev = pre.upcall_entry(driver_num, subscribe_num);
    if !pre.driver_exists(driver_num) {
        &&& post.upcalls@ == pre.upcalls@
        &&& post.pending@ == pre.pending@
        &&& r == no_device_registers()
    } else {
        &&& if fcn_addr == 0 {
            post.upcalls@ == pre.upcalls@.remove(key) && post.pending@ == pre.pending@.filter(
                keeps_other_slots(driver_num, subscribe_num),
            )
        } else {
            post.upcalls@ == pre.upcalls@.insert(key, (fcn_addr, data_addr)) && post.pending@
                == pre.pending@
        }
        &&& r.0 == register_from_usize(crate::return_variant::SUCCESS_2_U32 as usize)
        &&& r.1 == register_from_usize(prev.1)
        &&& r.2 == register_from_usize(prev.0)
        &&& r.3 == register_from_usize(0)
    }
}

/// How an Allow syscall answers and changes one buffer table: a missing
/// driver fails with no-device and changes nothing; otherwise the call
/// succeeds, the zero buffer (address 0, length 0) clears the slot, any
/// other buffer is recorded, and the success payload carries the previous
/// buffer's address and length — (0, 0) for a previously empty slot.
pub open spec fn allow_transition(pre: Kernel, pre_map: Map<u64, (usize, usize)>, post_map: Map<u64, (usize, usize)>, driver_num: u32, buffer_num: u32, addr: usize, len: usize, r: (Register, Register, Register, Register)) -> bool {
    let key = slot_key(driver_num, buffer_num);
    let prev = if pre_map.contains_key(key) {
        pre_map[key]
    } else {
        (0, 0)
    };
    if !pre.driver_exists(driver_num) {
        &&& post_map == pre_map
        &&& r == no_device_registers()
    } else {
        &&& post_map == if addr == 0 && len == 0 {
            pre_map.remove(key)
        } else {
            pre_map.insert(key, (addr, len))
        }
        &&& r.0 == register_from_usize(crate::return_variant::SUCCESS_2_U32 as usize)
        &&& r.1 == register_from_usize(prev.0)
        &&& r.2 == register_from_usize(prev.1)
        &&& r.3 == register_from_usize(0)
    }
}

/// How a Memop syscall answers: moving the break returns the previous
/// absolute break as a data-capability register, or fails with the no-memory
/// code when the move would overflow the address space; any other operation
/// fails with the no-support code.
pub open spec fn memop_transition(pre: Kernel, post: Kernel, op: u32, arg: usize, r: (Register, Register)) -> bool {
    if op == MEMOP_SBRK {
        if pre.memory_break + arg <= usize::MAX {
            &&& post.memory_break == pre.memory_break + arg
            &&& r.0 == register_from_usize(crate::return_variant::SUCCESS_U32 as usize)
            &&& r.1 == (Register { addr: pre.memory_break, provenance: Provenance::Data })
        } else {
            &&& post.memory_break == pre.memory_break
            &&& r.0 == register_from_usize(crate::return_variant::FAILURE as usize)
            &&& r.1 == register_from_usize(error_code_value(ErrorCode::NoMem) as usize)
        }
    } else {
        &&& post.memory_break == pre.memory_break
        &&& r.0 == register_from_usize(crate::return_variant::FAILURE as usize)
        &&& r.1 == register_from_usize(error_code_value(ErrorCode::NoSupport) as usize)
    }
}

impl Kernel {
    /// Drops every pending upcall for one slot, keeping the order of the
    /// rest.
    fn remove_pending_for(&mut self, driver_num: u32, subscribe_num: u32)
        ensures
            final(self).pending@ == old(self).pending@.filter(
                keeps_other_slots(driver_num, subscribe_num),
            ),
            forall|i: int|
                0 <= i < final(self).pending@.len() ==> old(self).pending@.contains(
                    #[trigger] final(self).pending@[i],
                ),
            final(self).drivers@ == old(self).drivers@,
            final(self).leds == old(self).leds,
            final(self).upcalls@ == old(self).upcalls@,
            final(self).allows_rw@ == old(self).allows_rw@,
            final(self).allows_ro@ == old(self).allows_ro@,
            final(self).memory_break == old(self).memory_break,
            final(self).exited == old(self).exited,
    {
        let ghost pred = keeps_other_slots(driver_num, subscribe_num);
        let mut kept: Vec<UpcallEvent> = Vec::new();
        let n = self.pending.len();
        let mut i: usize = 0;
        proof {
            assert(self.pending@.take(0) =~= Seq::<UpcallEvent>::empty());
            reveal_with_fuel(Seq::<_>::filter, 1);
        }
        while i < n
            invariant
                i <= n,
                n == self.pending@.len(),
                kept@ == self.pending@.take(i as int).filter(pred),
                pred == keeps_other_slots(driver_num, subscribe_num),
                forall|j: int| 0 <= j < kept@.len() ==> self.pending@.contains(#[trigger] kept@[j]),
            decreases n - i,
        {
            let e = self.pending[i];
            proof {
                let taken = self.pending@.take(i as int);
                assert(self.pending@.take(i + 1) =~= taken + seq![e]);
                Seq::<UpcallEvent>::filter_distributes_over_add(taken, seq![e], pred);
                reveal_with_fuel(Seq::<_>::filter, 2);
                assert(seq![e].drop_last() =~= Seq::<UpcallEvent>::empty());
                assert(seq![e].filter(pred) == if pred(e) {
                    Seq::<UpcallEvent>::empty().push(e)
                } else {
                    Seq::<UpcallEvent>::empty()
                });
            }
            if !(e.driver_num == driver_num && e.subscribe_num == subscribe_num) {
                kept.push(e);
                proof {
                    assert(kept@ =~= self.pending@.take(i as int).filter(pred) + seq![e]);
                    assert(kept@ =~= self.pending@.take(i + 1).filter(pred));
                }
            } else {
                proof {
                    assert(kept@ =~= self.pending@.take(i + 1).filter(pred));
                }
            }
            i = i + 1;
        }
        proof {
            assert(self.pending@.take(n as int) =~= self.pending@);
        }
        self.pending = kept;
    }

    /// The raw 4-argument, 4-result syscall entry point, covering the
    /// Subscribe, Command and Allow classes. The argument registers are
    /// interpreted as the ABI fixes for the class; the result registers are
    /// produced exactly as the class transitions above state.
    pub fn syscall4(&mut self, class: u32, a0: Register, a1: Register, a2: Register, a3: Register) -> (r: (Register, Register, Register, Register))
        requires
            old(self).wf(),
            old(self).running(),
            class == SUBSCRIBE || class == COMMAND || class == ALLOW_RW || class == ALLOW_RO,
        ensures
            final(self).wf(),
            final(self).drivers@ == old(self).drivers@,
            final(self).memory_break == old(self).memory_break,
            final(self).exited == old(self).exited,
            class == SUBSCRIBE ==> {
                &&& subscribe_transition(
                    *old(self),
                    *final(self),
                    lo32(a0.addr),
                    lo32(a1.addr),
                    a2.addr,
                    a3.addr,
                    r,
                )
                &&& final(self).leds == old(self).leds
                &&& final(self).allows_rw@ == old(self).allows_rw@
                &&& final(self).allows_ro@ == old(self).allows_ro@
            },
            class == COMMAND ==> {
                &&& r == command_return_registers(
                    command_result(*old(self), lo32(a0.addr), lo32(a1.addr), a2.addr, a3.addr),
                )
                &&& final(self).leds_view() == command_leds_after(
                    *old(self),
                    lo32(a0.addr),
                    lo32(a1.addr),
                    a2.addr,
                )
                &&& final(self).upcalls@ == old(self).upcalls@
                &&& final(self).pending@ == old(self).pending@
                &&& final(self).allows_rw@ == old(self).allows_rw@
                &&& final(self).allows_ro@ == old(self).allows_ro@
            },
            class == ALLOW_RW ==> {
                &&& allow_transition(
                    *old(self),
                    old(self).allows_rw@,
                    final(self).allows_rw@,
                    lo32(a0.addr),
                    lo32(a1.addr),
                    a2.addr,
                    a3.addr,
                    r,
                )
                &&& final(self).leds == old(self).leds
                &&& final(self).upcalls@ == old(self).upcalls@
                &&& final(self).pending@ == old(self).pending@
                &&& final(self).allows_ro@ == old(self).allows_ro@
            },
            class == ALLOW_RO ==> {
                &&& allow_transition(
                    *old(self),
                    old(self).allows_ro@,
                    final(self).allows_ro@,
                    lo32(a0.addr),
                    lo32(a1.addr),
                    a2.addr,
                    a3.addr,
                    r,
                )
                &&& final(self).leds == old(self).leds
                &&& final(self).upcalls@ == old(self).upcalls@
                &&& final(self).pending@ == old(self).pending@
                &&& final(self).allows_rw@ == old(self).allows_rw@
            },
    {
        let driver_num = a0.as_u32();
        if class == SUBSCRIBE {
            let subscribe_num = a1.as_u32();
            if !self.has_driver(driver_num) {
                return (
                    Register::from_u32(crate::return_variant::FAILURE_2_U32),
                    Register::from_error_code(ErrorCode::NoDevice),
                    Register::from_usize(0),
                    Register::from_usize(0),
                );
            }
            let key = slot_key_exec(driver_num, subscribe_num);
            let prev = match self.upcalls.get(&key) {
                Some(p) => *p,
                None => (0, 0),
            };
            if a2.as_usize() == 0 {
                self.upcalls.remove(&key);
                self.remove_pending_for(driver_num, subscribe_num);
                proof {
                    assert forall|k: u64| #[trigger] self.upcalls@.contains_key(k) implies self
                        .driver_exists(key_driver(k)) by {
                        assert(old(self).upcalls@.contains_key(k));
                    }
                    assert forall|i: int| 0 <= i < self.pending@.len() implies self
                        .upcall_registered(
                        (#[trigger] self.pending@[i]).driver_num,
                        self.pending@[i].subscribe_num,
                    ) by {
                        let e = self.pending@[i];
                        assert(old(self).pending@.contains(e));
                        let j = choose|j: int|
                            0 <= j < old(self).pending@.len() && old(self).pending@[j] == e;
                        assert(old(self).upcall_registered(e.driver_num, e.subscribe_num));
                        broadcast use vstd::seq_lib::group_filter_ensures;

                        assert(keeps_other_slots(driver_num, subscribe_num)(e));
                        lemma_slot_key_injective(
                            e.driver_num,
                            e.subscribe_num,
                            driver_num,
                            subscribe_num,
                        );
                    }
                }
            } else {
                self.upcalls.insert(key, (a2.as_usize(), a3.as_usize()));
                proof {
                    assert forall|k: u64| #[trigger] self.upcalls@.contains_key(k) implies self
                        .driver_exists(key_driver(k)) by {
                        if k == key {
                            lemma_slot_key_injective(
                                driver_num,
                                subscribe_num,
                                driver_num,
                                subscribe_num,
                            );
                        } else {
                            assert(old(self).upcalls@.contains_key(k));
                        }
                    }
                }
            }
            (
                Register::from_u32(crate::return_variant::SUCCESS_2_U32),
                Register::from_usize(prev.1),
                Register::from_usize(prev.0),
                Register::from_usize(0),
            )
        } else if class == COMMAND {
            let command_num = a1.as_u32();
            let arg0 = a2.as_usize();
            if driver_num == LED_DRIVER_NUM && self.leds.is_some() {
                if command_num == LEDS_COUNT {
                    let len_usize: usize = match &self.leds {
                        Some(v) => v.len(),
                        None => 0,
                    };
                    let count: u32 = len_usize as u32;
                    proof {
                        let m = len_usize;
                        assert(m <= 0xffff_ffff ==> m as u32 == m) by (bit_vector);
                        assert(len_usize == old(self).leds_view()->0.len());
                    }
                    (
                        Register::from_u32(crate::return_variant::SUCCESS_U32),
                        Register::from_u32(count),
                        Register::from_usize(0),
                        Register::from_usize(0),
                    )
                } else if command_num == LED_ON || command_num == LED_OFF || command_num
                    == LED_TOGGLE {
                    let mut in_range = false;
                    if let Some(v) = &mut self.leds {
                        if arg0 < v.len() {
                            in_range = true;
                            let new_state = if command_num == LED_ON {
                                true
                            } else if command_num == LED_OFF {
                                false
                            } else {
                                !v[arg0]
                            };
                            v[arg0] = new_state;
                        }
                    }
                    if in_range {
                        (
                            Register::from_u32(crate::return_variant::SUCCESS),
                            Register::from_usize(0),
                            Register::from_usize(0),
                            Register::from_usize(0),
                        )
                    } else {
                        (
                            Register::from_u32(crate::return_variant::FAILURE),
                            Register::from_error_code(ErrorCode::Invalid),
                            Register::from_usize(0),
                            Register::from_usize(0),
                        )
                    }
                } else {
                    (
                        Register::from_u32(crate::return_variant::FAILURE),
                        Register::from_error_code(ErrorCode::NoSupport),
                        Register::from_usize(0),
                        Register::from_usize(0),
                    )
                }
            } else if self.has_driver(driver_num) {
                (
                    Register::from_u32(crate::return_variant::SUCCESS),
                    Register::from_usize(0),
                    Register::from_usize(0),
                    Register::from_usize(0),
                )
            } else {
                (
                    Register::from_u32(crate::return_variant::FAILURE),
                    Register::from_error_code(ErrorCode::NoDevice),
                    Register::from_usize(0),
                    Register::from_usize(0),
                )
            }
        } else {
            let buffer_num = a1.as_u32();
            if !self.has_driver(driver_num) {
                return (
                    Register::from_u32(crate::return_variant::FAILURE_2_U32),
                    Register::from_error_code(ErrorCode::NoDevice),
                    Register::from_usize(0),
                    Register::from_usize(0),
                );
            }
            let key = slot_key_exec(driver_num, buffer_num);
            let addr = a2.as_usize();
            let len = a3.as_usize();
            let prev: (usize, usize);
            if class == ALLOW_RW {
                prev = match self.allows_rw.get(&key) {
                    Some(p) => *p,
                    None => (0, 0),
                };
                if addr == 0 && len == 0 {
                    self.allows_rw.remove(&key);
                } else {
                    self.allows_rw.insert(key, (addr, len));
                }
                proof {
                    assert forall|k: u64| #[trigger] self.allows_rw@.contains_key(k) implies self
                        .driver_exists(key_driver(k)) by {
                        if k == slot_key(driver_num, buffer_num) {
                            lemma_slot_key_injective(
                                driver_num,
                                buffer_num,
                                driver_num,
                                buffer_num,
                            );
                        } else {
                            assert(old(self).allows_rw@.contains_key(k));
                        }
                    }
                }
            } else {
                prev = match self.allows_ro.get(&key) {
                    Some(p) => *p,
                    None => (0, 0),
                };
                if addr == 0 && len == 0 {
                    self.allows_ro.remove(&key);
                } else {
                    self.allows_ro.insert(key, (addr, len));
                }
                proof {
                    assert forall|k: u64| #[trigger] self.allows_ro@.contains_key(k) implies self
                        .driver_exists(key_driver(k)) by {
                        if k == slot_key(driver_num, buffer_num) {
                            lemma_slot_key_injective(
                                driver_num,
                                buffer_num,
                                driver_num,
                                buffer_num,
                            );
                        } else {
                            assert(old(self).allows_ro@.contains_key(k));
                        }
                    }
                }
            }
            (
                Register::from_u32(crate::return_variant::SUCCESS_2_U32),
                Register::from_usize(prev.0),
                Register::from_usize(prev.1),
                Register::from_usize(0),
            )
        }
    }

    /// The raw 2-argument, 2-result syscall entry point, covering the Memop
    /// and Exit classes. An Exit syscall never returns control to the
    /// process: it records how the process left, and no further syscall is
    /// possible afterwards.
    pub fn syscall2(&mut self, class: u32, a0: Register, a1: Register) -> (r: (Register, Register))
        requires
            old(self).wf(),
            old(self).running(),
            class == MEMOP || class == EXIT,
        ensures
            final(self).wf(),
            final(self).drivers@ == old(self).drivers@,
            final(self).leds == old(self).leds,
            final(self).upcalls@ == old(self).upcalls@,
            final(self).allows_rw@ == old(self).allows_rw@,
            final(self).allows_ro@ == old(self).allows_ro@,
            final(self).pending@ == old(self).pending@,
            class == MEMOP ==> {
                &&& memop_transition(*old(self), *final(self), lo32(a0.addr), a1.addr, r)
                &&& final(self).exited == old(self).exited
            },
            class == EXIT ==> {
                &&& final(self).memory_break == old(self).memory_break
                &&& if lo32(a0.addr) == EXIT_TERMINATE {
                    final(self).exited == Some(ExitCall::Terminate(lo32(a1.addr)))
                } else if lo32(a0.addr) == EXIT_RESTART {
                    final(self).exited == Some(ExitCall::Restart(lo32(a1.addr)))
                } else {
                    final(self).exited == old(self).exited && r.0 == register_from_usize(
                        crate::return_variant::FAILURE as usize,
                    ) && r.1 == register_from_usize(
                        error_code_value(ErrorCode::Invalid) as usize,
                    )
                }
            },
    {
        if class == MEMOP {
            let op = a0.as_u32();
            let arg = a1.as_usize();
            if op == MEMOP_SBRK {
                if arg <= usize::MAX - self.memory_break {
                    let prev = self.memory_break;
                    self.memory_break = self.memory_break + arg;
                    (
                        Register::from_u32(crate::return_variant::SUCCESS_U32),
                        Register::from_data_address(prev),
                    )
                } else {
                    (
                        Register::from_u32(crate::return_variant::FAILURE),
                        Register::from_error_code(ErrorCode::NoMem),
                    )
                }
            } else {
                (
                    Register::from_u32(crate::return_variant::FAILURE),
                    Register::from_error_code(ErrorCode::NoSupport),
                )
            }
        } else {
            let which = a0.as_u32();
            let code = a1.as_u32();
            if which == EXIT_TERMINATE {
                self.exited = Some(ExitCall::Terminate(code));
                (Register::from_u32(crate::return_variant::SUCCESS), Register::from_usize(0))
            } else if which == EXIT_RESTART {
                self.exited = Some(ExitCall::Restart(code));
                (Register::from_u32(crate::return_variant::SUCCESS), Register::from_usize(0))
            } else {
                (
                    Register::from_u32(crate::return_variant::FAILURE),
                    Register::from_error_code(ErrorCode::Invalid),
                )
            }
        }
    }
}

} // verus!
