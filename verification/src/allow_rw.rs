//! Scoped read-write buffer sharing: the `AllowRw` guard and the `Config`
//! hook for allow anomalies.
//!
//! An `AllowRw` guard proves that its buffer slot is claimed by exactly one
//! owner. Releasing the guard re-shares the zero buffer — address 0, length
//! 0 — which revokes the kernel's access before the borrowed buffer can be
//! reused or freed.

use vstd::prelude::*;
use crate::error_code::ErrorCode;
use crate::fake::Kernel;
use crate::fake::slot_key;
use crate::share::ShareScope;

verus! {

/// `Config` configures how the read-write Allow call treats a protocol
/// anomaly. It should generally be passed through by drivers, so that
/// application code decides the policy.
pub trait Config: Sized {
    /// The relation this policy's hook establishes between its state before
    /// and after being invoked once.
    spec fn buffer_anomaly(pre: Self, post: Self, driver_num: u32, buffer_num: u32) -> bool;

    /// Called when an Allow call succeeds and the kernel returns a previous
    /// buffer other than the zero buffer. It is an anomaly signal, not an
    /// error.
    fn returned_nonzero_buffer(&mut self, driver_num: u32, buffer_num: u32)
        ensures
            Self::buffer_anomaly(*old(self), *final(self), driver_num, buffer_num),
    ;
}

/// A scope-bound claim on one read-write buffer slot. While it lives, no
/// second guard for the same slot can be obtained; releasing it revokes the
/// share before the claim is freed.
pub struct AllowRw<const DRIVER_NUM: u32, const BUFFER_NUM: u32> {
    handle: usize,
}

impl<const DRIVER_NUM: u32, const BUFFER_NUM: u32> AllowRw<DRIVER_NUM, BUFFER_NUM> {
    /// The nonzero handle standing in for the address of the buffer this
    /// guard's share is bound to.
    pub closed spec fn spec_handle(self) -> usize {
        self.handle
    }

    /// A guard obtained from `enter` always carries a nonzero handle.
    pub open spec fn wf(self) -> bool {
        self.spec_handle() != 0
    }

    pub(crate) fn handle(&self) -> (h: usize)
        ensures
            h == self.spec_handle(),
    {
        self.handle
    }

    /// Claims the slot and returns its guard; while a previous guard is
    /// still alive the claim is refused and nothing changes.
    pub fn enter(scope: &mut ShareScope) -> (r: Option<AllowRw<DRIVER_NUM, BUFFER_NUM>>)
        requires
            old(scope).wf(),
        ensures
            final(scope).wf(),
            final(scope).subscribe_claims@ == old(scope).subscribe_claims@,
            final(scope).ro_claims@ == old(scope).ro_claims@,
            if old(scope).rw_claimed(DRIVER_NUM, BUFFER_NUM) {
                r is None && final(scope).rw_claims@ == old(scope).rw_claims@
            } else {
                r is Some && r->0.wf() && final(scope).rw_claims@ == old(
                    scope,
                ).rw_claims@.insert(slot_key(DRIVER_NUM, BUFFER_NUM))
            },
    {
        if scope.claim_rw(DRIVER_NUM, BUFFER_NUM) {
            let h = scope.take_handle();
            Some(AllowRw { handle: h })
        } else {
            proof {
                assert(old(scope).rw_claims@.insert(slot_key(DRIVER_NUM, BUFFER_NUM)) =~= old(
                    scope,
                ).rw_claims@);
            }
            None
        }
    }

    /// Releases the guard: re-shares the zero buffer on this exact
    /// (driver, buffer) slot, which resets the kernel-visible slot to
    /// (address 0, length 0), then frees the claim. This runs before the
    /// borrowed buffer can be reused or freed.
    pub fn release(self, kernel: &mut Kernel, scope: &mut ShareScope) -> (r: Result<
        (),
        ErrorCode,
    >)
        requires
            old(kernel).wf(),
            old(kernel).running(),
            old(scope).wf(),
        ensures
            final(kernel).wf(),
            final(kernel).allow_rw_slot(DRIVER_NUM, BUFFER_NUM) == (0usize, 0usize),
            r == if old(kernel).driver_exists(DRIVER_NUM) {
                Ok::<(), ErrorCode>(())
            } else {
                Err::<(), ErrorCode>(ErrorCode::NoDevice)
            },
            final(kernel).allows_rw@ == if old(kernel).driver_exists(DRIVER_NUM) {
                old(kernel).allows_rw@.remove(slot_key(DRIVER_NUM, BUFFER_NUM))
            } else {
                old(kernel).allows_rw@
            },
            final(kernel).drivers@ == old(kernel).drivers@,
            final(kernel).leds == old(kernel).leds,
            final(kernel).upcalls@ == old(kernel).upcalls@,
            final(kernel).allows_ro@ == old(kernel).allows_ro@,
            final(kernel).pending@ == old(kernel).pending@,
            final(kernel).memory_break == old(kernel).memory_break,
            final(kernel).exited == old(kernel).exited,
            final(scope).wf(),
            final(scope).rw_claims@ == old(scope).rw_claims@.remove(
                slot_key(DRIVER_NUM, BUFFER_NUM),
            ),
            !final(scope).rw_claimed(DRIVER_NUM, BUFFER_NUM),
            final(scope).subscribe_claims@ == old(scope).subscribe_claims@,
            final(scope).ro_claims@ == old(scope).ro_claims@,
    {
        let r = kernel.unallow_rw(DRIVER_NUM, BUFFER_NUM);
        scope.unclaim_rw(DRIVER_NUM, BUFFER_NUM);
        r
    }
}

} // verus!
