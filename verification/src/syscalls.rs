//! The safe syscall facade.
//!
//! These methods are the typed, safe operations a process uses: yield,
//! subscribe, command, the two allows, memop, the break move and exit. Each
//! builds its argument registers with the register codec, issues the raw
//! syscall, owns the failure-tag interpretation of the result registers,
//! and routes protocol anomalies to the configured hook.

use vstd::prelude::*;
use crate::error_code::ErrorCode;
use crate::error_code::error_code_value;
use crate::error_code::error_code_from_value;
use crate::command_return::CommandReturn;
use crate::command_return::lo32;
use crate::command_return::lemma_lo32_of_u32;
use crate::register::Register;
use crate::register::Provenance;
use crate::return_variant::ReturnVariant;
use crate::return_variant::is_failure_value;
use crate::fake::Kernel;
use crate::fake::ExitCall;
use crate::fake::UpcallEvent;
use crate::fake::slot_key;
use crate::fake::keeps_other_slots;
use crate::fake::lemma_slot_key_injective;
use crate::fake::command_result;
use crate::fake::command_leds_after;
use crate::fake::unchanged_except_pending;
use crate::subscribe::Subscribe;
use crate::subscribe::Upcall;
use crate::subscribe::SupportsId;
use crate::allow_rw::AllowRw;
use crate::allow_ro::AllowRo;
use crate::syscall_class::SUBSCRIBE;
use crate::syscall_class::COMMAND;
use crate::syscall_class::ALLOW_RW;
use crate::syscall_class::ALLOW_RO;
use crate::syscall_class::MEMOP;
use crate::syscall_class::EXIT;
use crate::syscall_class::EXIT_TERMINATE;
use crate::syscall_class::EXIT_RESTART;
use crate::syscall_class::MEMOP_SBRK;

verus! {

/// What `yield_no_wait` reports: whether a callback was dispatched and, if
/// so, via which slot and with which arguments.
#[derive(Clone, Copy, Debug, PartialEq, Eq, Structural)]
pub enum YieldNoWaitReturn {
    NoUpcall,
    Upcall(UpcallEvent),
}

/// Interprets the first two result registers of a registration-class
/// syscall: a failure-family tag propagates the error code carried in the
/// second register, any other tag counts as success.
pub fn check_result(r0: Register, r1: Register) -> (r: Result<(), ErrorCode>)
    ensures
        r == if is_failure_value(lo32(r0.addr)) {
            Err::<(), ErrorCode>(error_code_from_value(lo32(r1.addr)))
        } else {
            Ok::<(), ErrorCode>(())
        },
{
    let variant = ReturnVariant::new(r0.as_u32());
    if variant.is_failure() {
        Err(ErrorCode::from_u32_or_fail(r1.as_u32()))
    } else {
        Ok(())
    }
}

impl Kernel {
    /// Polls for a pending callback: dispatches the oldest pending upcall
    /// and reports via which slot it came, or reports that none was
    /// pending. Never suspends.
    pub fn yield_no_wait(&mut self) -> (r: YieldNoWaitReturn)
        requires
            old(self).wf(),
            old(self).running(),
        ensures
            final(self).wf(),
            unchanged_except_pending(*old(self), *final(self)),
            if old(self).pending@.len() == 0 {
                r == YieldNoWaitReturn::NoUpcall && final(self).pending@ == old(self).pending@
            } else {
                r == YieldNoWaitReturn::Upcall(old(self).pending@[0]) && final(self).pending@
                    == old(self).pending@.skip(1)
            },
    {
        if self.pending.len() == 0 {
            YieldNoWaitReturn::NoUpcall
        } else {
            let e = self.pending.remove(0);
            proof {
                assert(self.pending@ =~= old(self).pending@.skip(1));
            }
            YieldNoWaitReturn::Upcall(e)
        }
    }

    /// Blocks until a callback is pending, dispatches exactly one, and
    /// returns it. A real process would suspend until the kernel delivers
    /// an event; against the simulation, an upcall must already be pending,
    /// since no event source can run while the process waits.
    pub fn yield_wait(&mut self) -> (r: UpcallEvent)
        requires
            old(self).wf(),
            old(self).running(),
            old(self).pending@.len() > 0,
        ensures
            final(self).wf(),
            unchanged_except_pending(*old(self), *final(self)),
            r == old(self).pending@[0],
            final(self).pending@ == old(self).pending@.skip(1),
    {
        let e = self.pending.remove(0);
        proof {
            assert(self.pending@ =~= old(self).pending@.skip(1));
        }
        e
    }

    /// Registers an upcall with the kernel on the slot the guard claims.
    /// The upcall object's accepted-ID constraint is checked here, at the
    /// registration boundary, through the `SupportsId` bound.
    ///
    /// On success the kernel echoes the previously registered upcall; a
    /// non-null previous upcall is a protocol anomaly, routed to the
    /// configured hook exactly once, and the call still succeeds.
    pub fn subscribe<IDS: SupportsId<DRIVER_NUM, SUBSCRIBE_NUM>, U: Upcall<IDS>, C: crate::subscribe::Config, const DRIVER_NUM: u32, const SUBSCRIBE_NUM: u32>(
        &mut self,
        subscribe_guard: &Subscribe<DRIVER_NUM, SUBSCRIBE_NUM>,
        config: &mut C,
        _upcall: &U,
    ) -> (r: Result<(), ErrorCode>)
        requires
            old(self).wf(),
            old(self).running(),
            subscribe_guard.wf(),
        ensures
            final(self).wf(),
            final(self).drivers@ == old(self).drivers@,
            final(self).leds == old(self).leds,
            final(self).allows_rw@ == old(self).allows_rw@,
            final(self).allows_ro@ == old(self).allows_ro@,
            final(self).pending@ == old(self).pending@,
            final(self).memory_break == old(self).memory_break,
            final(self).exited == old(self).exited,
            r == if old(self).driver_exists(DRIVER_NUM) {
                Ok::<(), ErrorCode>(())
            } else {
                Err::<(), ErrorCode>(ErrorCode::NoDevice)
            },
            if old(self).driver_exists(DRIVER_NUM) {
                &&& final(self).upcalls@ == old(self).upcalls@.insert(
                    slot_key(DRIVER_NUM, SUBSCRIBE_NUM),
                    (subscribe_guard.spec_handle(), subscribe_guard.spec_handle()),
                )
                &&& final(self).upcall_registered(DRIVER_NUM, SUBSCRIBE_NUM)
                &&& if old(self).upcall_entry(DRIVER_NUM, SUBSCRIBE_NUM).1 != 0 {
                    C::upcall_anomaly(*old(config), *final(config), DRIVER_NUM, SUBSCRIBE_NUM)
                } else {
                    *final(config) == *old(config)
                }
            } else {
                final(self).upcalls@ == old(self).upcalls@ && *final(config) == *old(config)
            },
    {
        let upcall_fcn = Register::from_function(subscribe_guard.handle());
        let upcall_data = Register::from_data_address(subscribe_guard.handle());
        let (r0, r1, _r2, _r3) = self.syscall4(
            SUBSCRIBE,
            Register::from_u32(DRIVER_NUM),
            Register::from_u32(SUBSCRIBE_NUM),
            upcall_fcn,
            upcall_data,
        );
        proof {
            lemma_lo32_of_u32(DRIVER_NUM);
            lemma_lo32_of_u32(SUBSCRIBE_NUM);
            lemma_lo32_of_u32(crate::return_variant::FAILURE_2_U32);
            lemma_lo32_of_u32(crate::return_variant::SUCCESS_2_U32);
            lemma_lo32_of_u32(error_code_value(ErrorCode::NoDevice));
        }
        match check_result(r0, r1) {
            Err(e) => Err(e),
            Ok(_) => {
                // The second result register carries the previous upcall's
                // data address; the null upcall has address 0.
                let returned_upcall: usize = r1.as_usize();
                if returned_upcall != 0 {
                    config.returned_nonnull_upcall(DRIVER_NUM, SUBSCRIBE_NUM);
                }
                Ok(())
            },
        }
    }

    /// Unregisters whatever upcall is registered on the slot. Fire and
    /// forget: unsubscribing an empty slot is a no-op, not an error, and
    /// any still-pending upcalls for the slot are dropped with it.
    pub fn unsubscribe(&mut self, driver_num: u32, subscribe_num: u32)
        requires
            old(self).wf(),
            old(self).running(),
        ensures
            final(self).wf(),
            final(self).drivers@ == old(self).drivers@,
            final(self).leds == old(self).leds,
            final(self).allows_rw@ == old(self).allows_rw@,
            final(self).allows_ro@ == old(self).allows_ro@,
            final(self).memory_break == old(self).memory_break,
            final(self).exited == old(self).exited,
            !final(self).upcall_registered(driver_num, subscribe_num),
            final(self).upcalls@ == if old(self).driver_exists(driver_num) {
                old(self).upcalls@.remove(slot_key(driver_num, subscribe_num))
            } else {
                old(self).upcalls@
            },
            final(self).pending@ == if old(self).driver_exists(driver_num) {
                old(self).pending@.filter(keeps_other_slots(driver_num, subscribe_num))
            } else {
                old(self).pending@
            },
    {
        let (_r0, _r1, _r2, _r3) = self.syscall4(
            SUBSCRIBE,
            Register::from_u32(driver_num),
            Register::from_u32(subscribe_num),
            Register::from_usize(0),
            Register::from_usize(0),
        );
        proof {
            lemma_lo32_of_u32(driver_num);
            lemma_lo32_of_u32(subscribe_num);
            if !old(self).driver_exists(driver_num) {
                if self.upcalls@.contains_key(slot_key(driver_num, subscribe_num)) {
                    lemma_slot_key_injective(driver_num, subscribe_num, driver_num, subscribe_num);
                }
            }
        }
    }

    /// Issues a driver command and decodes the four result registers. The
    /// result is exactly what the addressed driver answered — failure with
    /// the no-device code if no such driver is installed — and only the
    /// addressed driver's state changes.
    pub fn command(&mut self, driver_id: u32, command_id: u32, argument0: usize, argument1: usize) -> (r: CommandReturn)
        requires
            old(self).wf(),
            old(self).running(),
        ensures
            final(self).wf(),
            final(self).drivers@ == old(self).drivers@,
            final(self).upcalls@ == old(self).upcalls@,
            final(self).allows_rw@ == old(self).allows_rw@,
            final(self).allows_ro@ == old(self).allows_ro@,
            final(self).pending@ == old(self).pending@,
            final(self).memory_break == old(self).memory_break,
            final(self).exited == old(self).exited,
            r == command_result(*old(self), driver_id, command_id, argument0, argument1),
            final(self).leds_view() == command_leds_after(
                *old(self),
                driver_id,
                command_id,
                argument0,
            ),
    {
        let (r0, r1, r2, r3) = self.syscall4(
            COMMAND,
            Register::from_u32(driver_id),
            Register::from_u32(command_id),
            Register::from_usize(argument0),
            Register::from_usize(argument1),
        );
        proof {
            lemma_lo32_of_u32(driver_id);
            lemma_lo32_of_u32(command_id);
            lemma_lo32_of_u32(
                command_result(*old(self), driver_id, command_id, argument0, argument1)
                    .return_variant.value,
            );
        }
        CommandReturn::new(
            ReturnVariant::new(r0.as_u32()),
            r1.as_usize(),
            r2.as_usize(),
            r3.as_usize(),
        )
    }

    /// Shares a read-write buffer with the kernel on the slot the guard
    /// claims. On success the kernel echoes the previously shared buffer; a
    /// previous buffer other than the zero buffer is a protocol anomaly,
    /// routed to the configured hook exactly once, and the call still
    /// succeeds.
    pub fn allow_rw<C: crate::allow_rw::Config, const DRIVER_NUM: u32, const BUFFER_NUM: u32>(
        &mut self,
        allow_guard: &AllowRw<DRIVER_NUM, BUFFER_NUM>,
        config: &mut C,
        buffer: &mut Vec<u8>,
    ) -> (r: Result<(), ErrorCode>)
        requires
            old(self).wf(),
            old(self).running(),
            allow_guard.wf(),
        ensures
            final(buffer)@ == old(buffer)@,
            final(self).wf(),
            final(self).drivers@ == old(self).drivers@,
            final(self).leds == old(self).leds,
            final(self).upcalls@ == old(self).upcalls@,
            final(self).allows_ro@ == old(self).allows_ro@,
            final(self).pending@ == old(self).pending@,
            final(self).memory_break == old(self).memory_break,
            final(self).exited == old(self).exited,
            r == if old(self).driver_exists(DRIVER_NUM) {
                Ok::<(), ErrorCode>(())
            } else {
                Err::<(), ErrorCode>(ErrorCode::NoDevice)
            },
            if old(self).driver_exists(DRIVER_NUM) {
                &&& final(self).allows_rw@ == old(self).allows_rw@.insert(
                    slot_key(DRIVER_NUM, BUFFER_NUM),
                    (allow_guard.spec_handle(), old(buffer)@.len() as usize),
                )
                &&& if old(self).allow_rw_slot(DRIVER_NUM, BUFFER_NUM) != (0usize, 0usize) {
                    C::buffer_anomaly(*old(config), *final(config), DRIVER_NUM, BUFFER_NUM)
                } else {
                    *final(config) == *old(config)
                }
            } else {
                final(self).allows_rw@ == old(self).allows_rw@ && *final(config) == *old(config)
            },
    {
        let addr = Register::from_data_address(allow_guard.handle());
        let len = Register::from_usize(buffer.len());
        let (r0, r1, r2, _r3) = self.syscall4(
            ALLOW_RW,
            Register::from_u32(DRIVER_NUM),
            Register::from_u32(BUFFER_NUM),
            addr,
            len,
        );
        proof {
            lemma_lo32_of_u32(DRIVER_NUM);
            lemma_lo32_of_u32(BUFFER_NUM);
            lemma_lo32_of_u32(crate::return_variant::FAILURE_2_U32);
            lemma_lo32_of_u32(crate::return_variant::SUCCESS_2_U32);
            lemma_lo32_of_u32(error_code_value(ErrorCode::NoDevice));
        }
        match check_result(r0, r1) {
            Err(e) => Err(e),
            Ok(_) => {
                // The payload registers carry the previous buffer's address
                // and length; anything but the zero buffer is an anomaly.
                let prev_addr: usize = r1.as_usize();
                let prev_len: usize = r2.as_usize();
                if !(prev_addr == 0 && prev_len == 0) {
                    config.returned_nonzero_buffer(DRIVER_NUM, BUFFER_NUM);
                }
                Ok(())
            },
        }
    }

    /// Revokes the kernel's access to the read-write buffer on the slot by
    /// re-sharing the zero buffer. The kernel-visible slot reads (address
    /// 0, length 0) afterwards whether or not anything was shared.
    pub fn unallow_rw(&mut self, driver_num: u32, buffer_num: u32) -> (r: Result<(), ErrorCode>)
        requires
            old(self).wf(),
            old(self).running(),
        ensures
            final(self).wf(),
            final(self).drivers@ == old(self).drivers@,
            final(self).leds == old(self).leds,
            final(self).upcalls@ == old(self).upcalls@,
            final(self).allows_ro@ == old(self).allows_ro@,
            final(self).pending@ == old(self).pending@,
            final(self).memory_break == old(self).memory_break,
            final(self).exited == old(self).exited,
            final(self).allow_rw_slot(driver_num, buffer_num) == (0usize, 0usize),
            r == if old(self).driver_exists(driver_num) {
                Ok::<(), ErrorCode>(())
            } else {
                Err::<(), ErrorCode>(ErrorCode::NoDevice)
            },
            final(self).allows_rw@ == if old(self).driver_exists(driver_num) {
                old(self).allows_rw@.remove(slot_key(driver_num, buffer_num))
            } else {
                old(self).allows_rw@
            },
    {
        let (r0, r1, _r2, _r3) = self.syscall4(
            ALLOW_RW,
            Register::from_u32(driver_num),
            Register::from_u32(buffer_num),
            Register::from_usize(0),
            Register::from_usize(0),
        );
        proof {
            lemma_lo32_of_u32(driver_num);
            lemma_lo32_of_u32(buffer_num);
            lemma_lo32_of_u32(crate::return_variant::FAILURE_2_U32);
            lemma_lo32_of_u32(crate::return_variant::SUCCESS_2_U32);
            lemma_lo32_of_u32(error_code_value(ErrorCode::NoDevice));
            if !old(self).driver_exists(driver_num) {
                if self.allows_rw@.contains_key(slot_key(driver_num, buffer_num)) {
                    lemma_slot_key_injective(driver_num, buffer_num, driver_num, buffer_num);
                }
            }
        }
        check_result(r0, r1)
    }

    /// Shares a read-only buffer with the kernel on the slot the guard
    /// claims. Mirrors `allow_rw`, but borrows the buffer shared, since the
    /// kernel only reads it.
    pub fn allow_ro<C: crate::allow_ro::Config, const DRIVER_NUM: u32, const BUFFER_NUM: u32>(
        &mut self,
        allow_guard: &AllowRo<DRIVER_NUM, BUFFER_NUM>,
        config: &mut C,
        buffer: &Vec<u8>,
    ) -> (r: Result<(), ErrorCode>)
        requires
            old(self).wf(),
            old(self).running(),
            allow_guard.wf(),
        ensures
            final(self).wf(),
            final(self).drivers@ == old(self).drivers@,
            final(self).leds == old(self).leds,
            final(self).upcalls@ == old(self).upcalls@,
            final(self).allows_rw@ == old(self).allows_rw@,
            final(self).pending@ == old(self).pending@,
            final(self).memory_break == old(self).memory_break,
            final(self).exited == old(self).exited,
            r == if old(self).driver_exists(DRIVER_NUM) {
                Ok::<(), ErrorCode>(())
            } else {
                Err::<(), ErrorCode>(ErrorCode::NoDevice)
            },
            if old(self).driver_exists(DRIVER_NUM) {
                &&& final(self).allows_ro@ == old(self).allows_ro@.insert(
                    slot_key(DRIVER_NUM, BUFFER_NUM),
                    (allow_guard.spec_handle(), buffer@.len() as usize),
                )
                &&& if old(self).allow_ro_slot(DRIVER_NUM, BUFFER_NUM) != (0usize, 0usize) {
                    C::buffer_anomaly(*old(config), *final(config), DRIVER_NUM, BUFFER_NUM)
                } else {
                    *final(config) == *old(config)
                }
            } else {
                final(self).allows_ro@ == old(self).allows_ro@ && *final(config) == *old(config)
            },
    {
        let addr = Register::from_data_address(allow_guard.handle());
        let len = Register::from_usize(buffer.len());
        let (r0, r1, r2, _r3) = self.syscall4(
            ALLOW_RO,
            Register::from_u32(DRIVER_NUM),
            Register::from_u32(BUFFER_NUM),
            addr,
            len,
        );
        proof {
            lemma_lo32_of_u32(DRIVER_NUM);
            lemma_lo32_of_u32(BUFFER_NUM);
            lemma_lo32_of_u32(crate::return_variant::FAILURE_2_U32);
            lemma_lo32_of_u32(crate::return_variant::SUCCESS_2_U32);
            lemma_lo32_of_u32(error_code_value(ErrorCode::NoDevice));
        }
        match check_result(r0, r1) {
            Err(e) => Err(e),
            Ok(_) => {
                let prev_addr: usize = r1.as_usize();
                let prev_len: usize = r2.as_usize();
                if !(prev_addr == 0 && prev_len == 0) {
                    config.returned_nonzero_buffer(DRIVER_NUM, BUFFER_NUM);
                }
                Ok(())
            },
        }
    }

    /// Shares a read-only buffer of 32-bit words: the same share as
    /// `allow_ro`, with the buffer's true byte length — four bytes per
    /// word — and an unchanged address.
    pub fn allow_ro_32<C: crate::allow_ro::Config, const DRIVER_NUM: u32, const BUFFER_NUM: u32>(
        &mut self,
        allow_guard: &AllowRo<DRIVER_NUM, BUFFER_NUM>,
        config: &mut C,
        buffer: &Vec<u32>,
    ) -> (r: Result<(), ErrorCode>)
        requires
            old(self).wf(),
            old(self).running(),
            allow_guard.wf(),
            buffer@.len() * 4 <= usize::MAX,
        ensures
            final(self).wf(),
            final(self).drivers@ == old(self).drivers@,
            final(self).leds == old(self).leds,
            final(self).upcalls@ == old(self).upcalls@,
            final(self).allows_rw@ == old(self).allows_rw@,
            final(self).pending@ == old(self).pending@,
            final(self).memory_break == old(self).memory_break,
            final(self).exited == old(self).exited,
            r == if old(self).driver_exists(DRIVER_NUM) {
                Ok::<(), ErrorCode>(())
            } else {
                Err::<(), ErrorCode>(ErrorCode::NoDevice)
            },
            if old(self).driver_exists(DRIVER_NUM) {
                &&& final(self).allows_ro@ == old(self).allows_ro@.insert(
                    slot_key(DRIVER_NUM, BUFFER_NUM),
                    (allow_guard.spec_handle(), (buffer@.len() * 4) as usize),
                )
                &&& if old(self).allow_ro_slot(DRIVER_NUM, BUFFER_NUM) != (0usize, 0usize) {
                    C::buffer_anomaly(*old(config), *final(config), DRIVER_NUM, BUFFER_NUM)
                } else {
                    *final(config) == *old(config)
                }
            } else {
                final(self).allows_ro@ == old(self).allows_ro@ && *final(config) == *old(config)
            },
    {
        let addr = Register::from_data_address(allow_guard.handle());
        let len = Register::from_usize(buffer.len() * 4);
        let (r0, r1, r2, _r3) = self.syscall4(
            ALLOW_RO,
            Register::from_u32(DRIVER_NUM),
            Register::from_u32(BUFFER_NUM),
            addr,
            len,
        );
        proof {
            lemma_lo32_of_u32(DRIVER_NUM);
            lemma_lo32_of_u32(BUFFER_NUM);
            lemma_lo32_of_u32(crate::return_variant::FAILURE_2_U32);
            lemma_lo32_of_u32(crate::return_variant::SUCCESS_2_U32);
            lemma_lo32_of_u32(error_code_value(ErrorCode::NoDevice));
        }
        match check_result(r0, r1) {
            Err(e) => Err(e),
            Ok(_) => {
                let prev_addr: usize = r1.as_usize();
                let prev_len: usize = r2.as_usize();
                if !(prev_addr == 0 && prev_len == 0) {
                    config.returned_nonzero_buffer(DRIVER_NUM, BUFFER_NUM);
                }
                Ok(())
            },
        }
    }

    /// Revokes the kernel's access to the read-only buffer on the slot by
    /// re-sharing the zero buffer. The kernel-visible slot reads (address
    /// 0, length 0) afterwards whether or not anything was shared.
    pub fn unallow_ro(&mut self, driver_num: u32, buffer_num: u32) -> (r: Result<(), ErrorCode>)
        requires
            old(self).wf(),
            old(self).running(),
        ensures
            final(self).wf(),
            final(self).drivers@ == old(self).drivers@,
            final(self).leds == old(self).leds,
            final(self).upcalls@ == old(self).upcalls@,
            final(self).allows_rw@ == old(self).allows_rw@,
            final(self).pending@ == old(self).pending@,
            final(self).memory_break == old(self).memory_break,
            final(self).exited == old(self).exited,
            final(self).allow_ro_slot(driver_num, buffer_num) == (0usize, 0usize),
            r == if old(self).driver_exists(driver_num) {
                Ok::<(), ErrorCode>(())
            } else {
                Err::<(), ErrorCode>(ErrorCode::NoDevice)
            },
            final(self).allows_ro@ == if old(self).driver_exists(driver_num) {
                old(self).allows_ro@.remove(slot_key(driver_num, buffer_num))
            } else {
                old(self).allows_ro@
            },
    {
        let (r0, r1, _r2, _r3) = self.syscall4(
            ALLOW_RO,
            Register::from_u32(driver_num),
            Register::from_u32(buffer_num),
            Register::from_usize(0),
            Register::from_usize(0),
        );
        proof {
            lemma_lo32_of_u32(driver_num);
            lemma_lo32_of_u32(buffer_num);
            lemma_lo32_of_u32(crate::return_variant::FAILURE_2_U32);
            lemma_lo32_of_u32(crate::return_variant::SUCCESS_2_U32);
            lemma_lo32_of_u32(error_code_value(ErrorCode::NoDevice));
            if !old(self).driver_exists(driver_num) {
                if self.allows_ro@.contains_key(slot_key(driver_num, buffer_num)) {
                    lemma_slot_key_injective(driver_num, buffer_num, driver_num, buffer_num);
                }
            }
        }
        check_result(r0, r1)
    }

    /// Performs a memory operation. A failure tag propagates the error
    /// code; otherwise the raw result register is handed back, tag intact,
    /// so a capability result survives.
    pub fn memop(&mut self, op_type: u32, arg1: usize) -> (r: Result<Register, ErrorCode>)
        requires
            old(self).wf(),
            old(self).running(),
        ensures
            final(self).wf(),
            final(self).running(),
            final(self).drivers@ == old(self).drivers@,
            final(self).leds == old(self).leds,
            final(self).upcalls@ == old(self).upcalls@,
            final(self).allows_rw@ == old(self).allows_rw@,
            final(self).allows_ro@ == old(self).allows_ro@,
            final(self).pending@ == old(self).pending@,
            op_type == MEMOP_SBRK ==> if old(self).memory_break + arg1 <= usize::MAX {
                r == Ok::<Register, ErrorCode>(
                    Register { addr: old(self).memory_break, provenance: Provenance::Data },
                ) && final(self).memory_break == old(self).memory_break + arg1
            } else {
                r == Err::<Register, ErrorCode>(ErrorCode::NoMem) && final(self).memory_break
                    == old(self).memory_break
            },
            op_type != MEMOP_SBRK ==> r == Err::<Register, ErrorCode>(ErrorCode::NoSupport)
                && final(self).memory_break == old(self).memory_break,
    {
        let (r0, r1) = self.syscall2(
            MEMOP,
            Register::from_u32(op_type),
            Register::from_usize(arg1),
        );
        proof {
            lemma_lo32_of_u32(op_type);
            lemma_lo32_of_u32(crate::return_variant::FAILURE);
            lemma_lo32_of_u32(crate::return_variant::SUCCESS_U32);
            lemma_lo32_of_u32(error_code_value(ErrorCode::NoMem));
            lemma_lo32_of_u32(error_code_value(ErrorCode::NoSupport));
        }
        let variant = ReturnVariant::new(r0.as_u32());
        if variant.is_failure() {
            Err(ErrorCode::from_u32_or_fail(r1.as_u32()))
        } else {
            Ok(r1)
        }
    }

    /// Moves the memory break by `offset` bytes and returns the absolute
    /// address of the previous break. On capability hardware the ambient
    /// default-data capability is re-derived to cover the new break; that
    /// re-derivation belongs to the architecture layer.
    pub fn sbrk(&mut self, offset: usize) -> (r: Result<usize, ErrorCode>)
        requires
            old(self).wf(),
            old(self).running(),
        ensures
            final(self).wf(),
            final(self).running(),
            final(self).drivers@ == old(self).drivers@,
            final(self).leds == old(self).leds,
            final(self).upcalls@ == old(self).upcalls@,
            final(self).allows_rw@ == old(self).allows_rw@,
            final(self).allows_ro@ == old(self).allows_ro@,
            final(self).pending@ == old(self).pending@,
            if old(self).memory_break + offset <= usize::MAX {
                r == Ok::<usize, ErrorCode>(old(self).memory_break) && final(self).memory_break
                    == old(self).memory_break + offset
            } else {
                r == Err::<usize, ErrorCode>(ErrorCode::NoMem) && final(self).memory_break == old(
                    self,
                ).memory_break
            },
    {
        match self.memop(MEMOP_SBRK, offset) {
            Ok(reg) => Ok(reg.as_usize()),
            Err(e) => Err(e),
        }
    }

    /// Terminates the process. The kernel guarantees that Exit never
    /// returns control: afterwards the process is no longer running and no
    /// further syscall is possible.
    pub fn exit_terminate(&mut self, exit_code: u32)
        requires
            old(self).wf(),
            old(self).running(),
        ensures
            final(self).wf(),
            final(self).exited == Some(ExitCall::Terminate(exit_code)),
            final(self).drivers@ == old(self).drivers@,
            final(self).leds == old(self).leds,
            final(self).upcalls@ == old(self).upcalls@,
            final(self).allows_rw@ == old(self).allows_rw@,
            final(self).allows_ro@ == old(self).allows_ro@,
            final(self).pending@ == old(self).pending@,
            final(self).memory_break == old(self).memory_break,
    {
        let (_r0, _r1) = self.syscall2(
            EXIT,
            Register::from_u32(EXIT_TERMINATE),
            Register::from_u32(exit_code),
        );
        proof {
            lemma_lo32_of_u32(EXIT_TERMINATE);
            lemma_lo32_of_u32(exit_code);
        }
    }

    /// Restarts the process. Like `exit_terminate`, Exit never returns
    /// control to the caller.
    pub fn exit_restart(&mut self, exit_code: u32)
        requires
            old(self).wf(),
            old(self).running(),
        ensures
            final(self).wf(),
            final(self).exited == Some(ExitCall::Restart(exit_code)),
            final(self).drivers@ == old(self).drivers@,
            final(self).leds == old(self).leds,
            final(self).upcalls@ == old(self).upcalls@,
            final(self).allows_rw@ == old(self).allows_rw@,
            final(self).allows_ro@ == old(self).allows_ro@,
            final(self).pending@ == old(self).pending@,
            final(self).memory_break == old(self).memory_break,
    {
        let (_r0, _r1) = self.syscall2(
            EXIT,
            Register::from_u32(EXIT_RESTART),
            Register::from_u32(exit_code),
        );
        proof {
            lemma_lo32_of_u32(EXIT_RESTART);
            lemma_lo32_of_u32(exit_code);
        }
    }
}

} // verus!
