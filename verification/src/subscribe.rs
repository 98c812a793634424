//! Scoped upcall registration: the `Subscribe` guard, the `Upcall`
//! abstraction, the storing upcall implementations, and the `Config` hook
//! for subscribe anomalies.
//!
//! A `Subscribe` guard proves that its slot is claimed by exactly one owner:
//! it can only be obtained from the scope registry, which refuses a second
//! claim on the same slot, and its release is the single point that issues
//! the unsubscribe syscall for that exact (driver, slot) pair and frees the
//! claim. Registering again without releasing first is therefore not
//! expressible.

use vstd::prelude::*;
use crate::error_code::ErrorCode;
use crate::error_code::error_code_from_value;
use crate::command_return::lo32;
use crate::fake::Kernel;
use crate::fake::slot_key;
use crate::fake::keeps_other_slots;
use crate::fake::pending_contains_for;
use crate::fake::pending_matches;
use crate::fake::first_match_from;
use crate::fake::first_match_event;
use crate::fake::lemma_first_match_push;
use crate::fake::unchanged_except_pending;
use crate::share::ShareScope;

verus! {

/// `Config` configures how the Subscribe call treats a protocol anomaly. It
/// should generally be passed through by drivers, so that application code
/// decides the policy.
pub trait Config: Sized {
    /// The relation this policy's hook establishes between its state before
    /// and after being invoked once.
    spec fn upcall_anomaly(pre: Self, post: Self, driver_num: u32, subscribe_num: u32) -> bool;

    /// Called when a Subscribe call succeeds and the kernel returns a
    /// non-null previous upcall. In some applications this indicates
    /// unexpected reentrance; it is an anomaly signal, not an error.
    fn returned_nonnull_upcall(&mut self, driver_num: u32, subscribe_num: u32)
        ensures
            Self::upcall_anomaly(*old(self), *final(self), driver_num, subscribe_num),
    ;
}

/// A scope-bound claim on one subscribe slot. While it lives, no second
/// guard for the same slot can be obtained; releasing it unsubscribes the
/// slot before the claim is freed.
pub struct Subscribe<const DRIVER_NUM: u32, const SUBSCRIBE_NUM: u32> {
    handle: usize,
}

impl<const DRIVER_NUM: u32, const SUBSCRIBE_NUM: u32> Subscribe<DRIVER_NUM, SUBSCRIBE_NUM> {
    /// The nonzero handle standing in for the address of the callback
    /// object this guard's registration is bound to.
    pub closed spec fn spec_handle(self) -> usize {
        self.handle
    }

    /// A guard obtained from `enter` always carries a nonzero handle.
    pub open spec fn wf(self) -> bool {
        self.spec_handle() != 0
    }

    pub(crate) fn handle(&self) -> (h: usize)
        ensures
            h == self.spec_handle(),
    {
        self.handle
    }

    /// Claims the slot and returns its guard; while a previous guard is
    /// still alive the claim is refused and nothing changes.
    pub fn enter(scope: &mut ShareScope) -> (r: Option<Subscribe<DRIVER_NUM, SUBSCRIBE_NUM>>)
        requires
            old(scope).wf(),
        ensures
            final(scope).wf(),
            final(scope).rw_claims@ == old(scope).rw_claims@,
            final(scope).ro_claims@ == old(scope).ro_claims@,
            if old(scope).subscribe_claimed(DRIVER_NUM, SUBSCRIBE_NUM) {
                r is None && final(scope).subscribe_claims@ == old(scope).subscribe_claims@
            } else {
                r is Some && r->0.wf() && final(scope).subscribe_claims@ == old(
                    scope,
                ).subscribe_claims@.insert(slot_key(DRIVER_NUM, SUBSCRIBE_NUM))
            },
    {
        if scope.claim_subscribe(DRIVER_NUM, SUBSCRIBE_NUM) {
            let h = scope.take_handle();
            Some(Subscribe { handle: h })
        } else {
            proof {
                assert(old(scope).subscribe_claims@.insert(
                    slot_key(DRIVER_NUM, SUBSCRIBE_NUM),
                ) =~= old(scope).subscribe_claims@);
            }
            None
        }
    }

    /// Releases the guard: issues the unsubscribe syscall for this exact
    /// (driver, slot) pair, then frees the claim. This is the single
    /// authoritative point of de-registration, and it runs before the
    /// borrowed callback object can be reused.
    pub fn release(self, kernel: &mut Kernel, scope: &mut ShareScope)
        requires
            old(kernel).wf(),
            old(kernel).running(),
            old(scope).wf(),
        ensures
            final(kernel).wf(),
            !final(kernel).upcall_registered(DRIVER_NUM, SUBSCRIBE_NUM),
            final(kernel).upcalls@ == if old(kernel).driver_exists(DRIVER_NUM) {
                old(kernel).upcalls@.remove(slot_key(DRIVER_NUM, SUBSCRIBE_NUM))
            } else {
                old(kernel).upcalls@
            },
            final(kernel).pending@ == if old(kernel).driver_exists(DRIVER_NUM) {
                old(kernel).pending@.filter(keeps_other_slots(DRIVER_NUM, SUBSCRIBE_NUM))
            } else {
                old(kernel).pending@
            },
            final(kernel).drivers@ == old(kernel).drivers@,
            final(kernel).leds == old(kernel).leds,
            final(kernel).allows_rw@ == old(kernel).allows_rw@,
            final(kernel).allows_ro@ == old(kernel).allows_ro@,
            final(kernel).memory_break == old(kernel).memory_break,
            final(kernel).exited == old(kernel).exited,
            final(scope).wf(),
            final(scope).subscribe_claims@ == old(scope).subscribe_claims@.remove(
                slot_key(DRIVER_NUM, SUBSCRIBE_NUM),
            ),
            !final(scope).subscribe_claimed(DRIVER_NUM, SUBSCRIBE_NUM),
            final(scope).rw_claims@ == old(scope).rw_claims@,
            final(scope).ro_claims@ == old(scope).ro_claims@,
    {
        kernel.unsubscribe(DRIVER_NUM, SUBSCRIBE_NUM);
        scope.unclaim_subscribe(DRIVER_NUM, SUBSCRIBE_NUM);
    }
}

/// A kernel upcall sink. Upcalls are registered through the Subscribe
/// syscall and invoked while the process yields.
///
/// Each implementation names the subscribe IDs it is willing to be bound to
/// through the `SupportedIds` parameter; `AnyId` and `OneId` are provided
/// for that purpose, and the binding is checked where the registration
/// happens.
pub trait Upcall<SupportedIds> {
    fn upcall(&mut self, arg0: usize, arg1: usize, arg2: usize);
}

/// Implemented by ID markers that accept a given (driver, subscribe) pair.
pub trait SupportsId<const DRIVER_NUM: u32, const SUBSCRIBE_NUM: u32> {

}

/// Marks an upcall as bindable to any subscribe ID.
pub struct AnyId;

impl<const DRIVER_NUM: u32, const SUBSCRIBE_NUM: u32> SupportsId<
    DRIVER_NUM,
    SUBSCRIBE_NUM,
> for AnyId {

}

/// Marks an upcall as bindable to exactly one (driver, subscribe) pair.
pub struct OneId<const DRIVER_NUM: u32, const SUBSCRIBE_NUM: u32>;

impl<const DRIVER_NUM: u32, const SUBSCRIBE_NUM: u32> SupportsId<
    DRIVER_NUM,
    SUBSCRIBE_NUM,
> for OneId<DRIVER_NUM, SUBSCRIBE_NUM> {

}

/// An upcall sink that only records that it was invoked.
#[derive(Clone, Copy, Debug, PartialEq, Eq, Structural)]
pub struct FlagCell {
    pub value: bool,
}

impl FlagCell {
    pub fn new(value: bool) -> (r: FlagCell)
        ensures
            r.value == value,
    {
        FlagCell { value }
    }

    pub fn get(&self) -> (r: bool)
        ensures
            r == self.value,
    {
        self.value
    }
}

impl Upcall<AnyId> for FlagCell {
    /// Sets the flag on any invocation, whatever the arguments are.
    fn upcall(&mut self, arg0: usize, arg1: usize, arg2: usize)
        ensures
            final(self).value == true,
    {
        self.value = true;
    }
}

/// An upcall sink that records that an event arrived, without payload. Most
/// users prefer `FlagCell`; this shape exists for uniformity with the other
/// storing cells.
#[derive(Clone, Copy, Debug)]
pub struct EmptyCell {
    pub value: Option<()>,
}

impl EmptyCell {
    pub fn new() -> (r: EmptyCell)
        ensures
            r.value is None,
    {
        EmptyCell { value: None }
    }

    pub fn get(&self) -> (r: Option<()>)
        ensures
            r == self.value,
    {
        self.value
    }

    pub fn set(&mut self, value: Option<()>)
        ensures
            final(self).value == value,
    {
        self.value = value;
    }
}

impl Upcall<AnyId> for EmptyCell {
    fn upcall(&mut self, arg0: usize, arg1: usize, arg2: usize)
        ensures
            final(self).value == Some(()),
    {
        self.value = Some(());
    }
}

/// An upcall sink that stores its first argument, overwriting the previous
/// event; the stored value stays readable until overwritten or reset.
#[derive(Clone, Copy, Debug)]
pub struct OneUsizeCell {
    pub value: Option<(usize,)>,
}

impl OneUsizeCell {
    pub fn new() -> (r: OneUsizeCell)
        ensures
            r.value is None,
    {
        OneUsizeCell { value: None }
    }

    pub fn get(&self) -> (r: Option<(usize,)>)
        ensures
            r == self.value,
    {
        self.value
    }

    pub fn set(&mut self, value: Option<(usize,)>)
        ensures
            final(self).value == value,
    {
        self.value = value;
    }
}

impl Upcall<AnyId> for OneUsizeCell {
    fn upcall(&mut self, arg0: usize, arg1: usize, arg2: usize)
        ensures
            final(self).value == Some((arg0,)),
    {
        self.value = Some((arg0,));
    }
}

/// An upcall sink that stores its first two arguments.
#[derive(Clone, Copy, Debug)]
pub struct TwoUsizeCell {
    pub value: Option<(usize, usize)>,
}

impl TwoUsizeCell {
    pub fn new() -> (r: TwoUsizeCell)
        ensures
            r.value is None,
    {
        TwoUsizeCell { value: None }
    }

    pub fn get(&self) -> (r: Option<(usize, usize)>)
        ensures
            r == self.value,
    {
        self.value
    }

    pub fn set(&mut self, value: Option<(usize, usize)>)
        ensures
            final(self).value == value,
    {
        self.value = value;
    }
}

impl Upcall<AnyId> for TwoUsizeCell {
    fn upcall(&mut self, arg0: usize, arg1: usize, arg2: usize)
        ensures
            final(self).value == Some((arg0, arg1)),
    {
        self.value = Some((arg0, arg1));
    }
}

/// An upcall sink that stores all three arguments.
#[derive(Clone, Copy, Debug)]
pub struct ThreeUsizeCell {
    pub value: Option<(usize, usize, usize)>,
}

impl ThreeUsizeCell {
    pub fn new() -> (r: ThreeUsizeCell)
        ensures
            r.value is None,
    {
        ThreeUsizeCell { value: None }
    }

    pub fn get(&self) -> (r: Option<(usize, usize, usize)>)
        ensures
            r == self.value,
    {
        self.value
    }

    pub fn set(&mut self, value: Option<(usize, usize, usize)>)
        ensures
            final(self).value == value,
    {
        self.value = value;
    }
}

impl Upcall<AnyId> for ThreeUsizeCell {
    fn upcall(&mut self, arg0: usize, arg1: usize, arg2: usize)
        ensures
            final(self).value == Some((arg0, arg1, arg2)),
    {
        self.value = Some((arg0, arg1, arg2));
    }
}

/// An upcall sink that stores its first argument truncated to 32 bits.
#[derive(Clone, Copy, Debug)]
pub struct OneU32Cell {
    pub value: Option<(u32,)>,
}

impl OneU32Cell {
    pub fn new() -> (r: OneU32Cell)
        ensures
            r.value is None,
    {
        OneU32Cell { value: None }
    }

    pub fn get(&self) -> (r: Option<(u32,)>)
        ensures
            r == self.value,
    {
        self.value
    }
}

impl Upcall<AnyId> for OneU32Cell {
    fn upcall(&mut self, arg0: usize, arg1: usize, arg2: usize)
        ensures
            final(self).value == Some((lo32(arg0),)),
    {
        self.value = Some((arg0 as u32,));
    }
}

/// An upcall sink that stores its first two arguments truncated to 32 bits.
#[derive(Clone, Copy, Debug)]
pub struct TwoU32Cell {
    pub value: Option<(u32, u32)>,
}

impl TwoU32Cell {
    pub fn new() -> (r: TwoU32Cell)
        ensures
            r.value is None,
    {
        TwoU32Cell { value: None }
    }

    pub fn get(&self) -> (r: Option<(u32, u32)>)
        ensures
            r == self.value,
    {
        self.value
    }
}

impl Upcall<AnyId> for TwoU32Cell {
    fn upcall(&mut self, arg0: usize, arg1: usize, arg2: usize)
        ensures
            final(self).value == Some((lo32(arg0), lo32(arg1))),
    {
        self.value = Some((arg0 as u32, arg1 as u32));
    }
}

/// An upcall sink that stores all three arguments truncated to 32 bits.
#[derive(Clone, Copy, Debug)]
pub struct ThreeU32Cell {
    pub value: Option<(u32, u32, u32)>,
}

impl ThreeU32Cell {
    pub fn new() -> (r: ThreeU32Cell)
        ensures
            r.value is None,
    {
        ThreeU32Cell { value: None }
    }

    pub fn get(&self) -> (r: Option<(u32, u32, u32)>)
        ensures
            r == self.value,
    {
        self.value
    }
}

impl Upcall<AnyId> for ThreeU32Cell {
    fn upcall(&mut self, arg0: usize, arg1: usize, arg2: usize)
        ensures
            final(self).value == Some((lo32(arg0), lo32(arg1), lo32(arg2))),
    {
        self.value = Some((arg0 as u32, arg1 as u32, arg2 as u32));
    }
}

/// The storing cell most drivers use for a status-only upcall.
pub type StandardResult = OneUsizeCell;

/// The storing cell for an upcall with one payload argument.
pub type StandardResultArg1 = TwoUsizeCell;

/// The storing cell for an upcall with two payload arguments.
pub type StandardResultArg2 = ThreeUsizeCell;

/// Views a stored upcall as a result: argument 0 is 0 for success or a
/// nonzero error code for failure, and the remaining arguments are the
/// success payload.
pub trait UpcallResult {
    type Arg;

    /// The decoded result: nothing until an upcall was stored, then the
    /// decoding of the stored arguments.
    spec fn result_model(&self) -> Option<Result<Self::Arg, ErrorCode>>;

    /// Reads the decoded result without blocking.
    fn upcall_result(&self) -> (r: Option<Result<Self::Arg, ErrorCode>>)
        ensures
            r == self.result_model(),
    ;

    /// Reads the decoded result, yielding to the kernel until an upcall for
    /// the given slot has been delivered. This wait loop is the only
    /// intended blocking pattern: it checks the cell, and while the cell is
    /// empty it lets the kernel dispatch the next pending upcall, storing
    /// those aimed at the given slot and re-queueing those aimed at other
    /// slots, so that no event is lost while one cell is waited on.
    fn upcall_result_yield(&mut self, kernel: &mut Kernel, driver_num: u32, subscribe_num: u32) -> (r: Result<Self::Arg, ErrorCode>)
        requires
            old(kernel).wf(),
            old(kernel).running(),
            old(self).result_model() is Some || pending_contains_for(
                old(kernel).pending@,
                driver_num,
                subscribe_num,
            ),
        ensures
            final(kernel).wf(),
            final(kernel).running(),
            unchanged_except_pending(*old(kernel), *final(kernel)),
            final(self).result_model() == Some(r),
    ;

    /// Clears the cell, so that the next stored upcall is seen as a fresh
    /// event.
    fn reset(&mut self)
        ensures
            final(self).result_model() is None,
    ;
}

/// Decodes upcall argument 0: zero is success, anything else is the error
/// code, with out-of-range values falling back to the generic failure code.
pub open spec fn decode_status(arg0: usize) -> Result<(), ErrorCode> {
    if arg0 == 0 {
        Ok(())
    } else {
        Err(error_code_from_value(lo32(arg0)))
    }
}

impl UpcallResult for StandardResult {
    type Arg = ();

    open spec fn result_model(&self) -> Option<Result<(), ErrorCode>> {
        match self.value {
            None => None,
            Some((x,)) => Some(
                match decode_status(x) {
                    Ok(_) => Ok(()),
                    Err(e) => Err(e),
                },
            ),
        }
    }

    fn upcall_result(&self) -> (r: Option<Result<(), ErrorCode>>) {
        match self.get() {
            None => None,
            Some((x,)) => Some(
                if x == 0 {
                    Ok(())
                } else {
                    Err(ErrorCode::from_u32_or_fail(x as u32))
                },
            ),
        }
    }

    fn upcall_result_yield(&mut self, kernel: &mut Kernel, driver_num: u32, subscribe_num: u32) -> (r: Result<(), ErrorCode>)
        ensures
            old(self).result_model() is Some ==> *final(self) == *old(self)
                && final(kernel).pending@ == old(kernel).pending@,
            old(self).result_model() is None ==> final(self).value == Some(
                (first_match_event(old(kernel).pending@, driver_num, subscribe_num).arg0,),
            ) && final(kernel).pending@.len() == old(kernel).pending@.len() - 1,
    {
        let ghost k0 = *old(kernel);
        loop
            invariant
                k0 == *old(kernel),
                kernel.wf(),
                kernel.running(),
                unchanged_except_pending(k0, *kernel),
                self.result_model() is Some || pending_contains_for(
                    kernel.pending@,
                    driver_num,
                    subscribe_num,
                ),
                old(self).result_model() is Some ==> *self == *old(self) && kernel.pending@
                    == k0.pending@,
                old(self).result_model() is None && self.result_model() is None
                    ==> kernel.pending@.len() == k0.pending@.len() && first_match_event(
                    kernel.pending@,
                    driver_num,
                    subscribe_num,
                ) == first_match_event(k0.pending@, driver_num, subscribe_num),
                old(self).result_model() is None && self.result_model() is Some ==> self.value
                    == Some(
                    (first_match_event(k0.pending@, driver_num, subscribe_num).arg0,),
                ) && kernel.pending@.len() == k0.pending@.len() - 1,
            decreases (if self.result_model() is Some {
                0int
            } else {
                1int
            }), first_match_from(kernel.pending@, driver_num, subscribe_num),
        {
            if let Some(result) = self.upcall_result() {
                return result;
            }
            let ghost pre_pending = kernel.pending@;
            let ghost wi = choose|i: int|
                0 <= i < pre_pending.len() && pending_matches(
                    #[trigger] pre_pending[i],
                    driver_num,
                    subscribe_num,
                );
            let e = kernel.yield_wait();
            if e.driver_num == driver_num && e.subscribe_num == subscribe_num {
                proof {
                    assert(first_match_event(pre_pending, driver_num, subscribe_num) == e);
                }
                self.upcall(e.arg0, e.arg1, e.arg2);
            } else {
                proof {
                    assert(pre_pending[0] == e);
                    assert(wi >= 1);
                    assert(kernel.pending@[wi - 1] == pre_pending[wi]);
                    assert(pending_contains_for(kernel.pending@, driver_num, subscribe_num));
                }
                // An event for another slot stays in the queue: it is
                // re-queued at the back while this wait walks towards the
                // first event for its own slot.
                let requeued = kernel.schedule_upcall(
                    e.driver_num,
                    e.subscribe_num,
                    e.arg0,
                    e.arg1,
                    e.arg2,
                );
                proof {
                    assert(requeued);
                    assert(kernel.pending@ == pre_pending.skip(1).push(e));
                    lemma_first_match_push(pre_pending.skip(1), driver_num, subscribe_num, e);
                    assert(kernel.pending@[wi - 1] == pre_pending[wi]);
                    assert(pending_contains_for(kernel.pending@, driver_num, subscribe_num));
                }
            }
        }
    }

    fn reset(&mut self) {
        self.set(None);
    }
}

impl UpcallResult for StandardResultArg1 {
    type Arg = usize;

    open spec fn result_model(&self) -> Option<Result<usize, ErrorCode>> {
        match self.value {
            None => None,
            Some((x, y)) => Some(
                match decode_status(x) {
                    Ok(_) => Ok(y),
                    Err(e) => Err(e),
                },
            ),
        }
    }

    fn upcall_result(&self) -> (r: Option<Result<usize, ErrorCode>>) {
        match self.get() {
            None => None,
            Some((x, y)) => Some(
                if x == 0 {
                    Ok(y)
                } else {
                    Err(ErrorCode::from_u32_or_fail(x as u32))
                },
            ),
        }
    }

    fn upcall_result_yield(&mut self, kernel: &mut Kernel, driver_num: u32, subscribe_num: u32) -> (r: Result<usize, ErrorCode>)
        ensures
            old(self).result_model() is Some ==> *final(self) == *old(self)
                && final(kernel).pending@ == old(kernel).pending@,
            old(self).result_model() is None ==> final(self).value == Some(
                (
                    first_match_event(old(kernel).pending@, driver_num, subscribe_num).arg0,
                    first_match_event(old(kernel).pending@, driver_num, subscribe_num).arg1,
                ),
            ) && final(kernel).pending@.len() == old(kernel).pending@.len() - 1,
    {
        let ghost k0 = *old(kernel);
        loop
            invariant
                k0 == *old(kernel),
                kernel.wf(),
                kernel.running(),
                unchanged_except_pending(k0, *kernel),
                self.result_model() is Some || pending_contains_for(
                    kernel.pending@,
                    driver_num,
                    subscribe_num,
                ),
                old(self).result_model() is Some ==> *self == *old(self) && kernel.pending@
                    == k0.pending@,
                old(self).result_model() is None && self.result_model() is None
                    ==> kernel.pending@.len() == k0.pending@.len() && first_match_event(
                    kernel.pending@,
                    driver_num,
                    subscribe_num,
                ) == first_match_event(k0.pending@, driver_num, subscribe_num),
                old(self).result_model() is None && self.result_model() is Some ==> self.value
                    == Some(
                    (
                    first_match_event(k0.pending@, driver_num, subscribe_num).arg0,
                    first_match_event(k0.pending@, driver_num, subscribe_num).arg1,
                ),
                ) && kernel.pending@.len() == k0.pending@.len() - 1,
            decreases (if self.result_model() is Some {
                0int
            } else {
                1int
            }), first_match_from(kernel.pending@, driver_num, subscribe_num),
        {
            if let Some(result) = self.upcall_result() {
                return result;
            }
            let ghost pre_pending = kernel.pending@;
            let ghost wi = choose|i: int|
                0 <= i < pre_pending.len() && pending_matches(
                    #[trigger] pre_pending[i],
                    driver_num,
                    subscribe_num,
                );
            let e = kernel.yield_wait();
            if e.driver_num == driver_num && e.subscribe_num == subscribe_num {
                proof {
                    assert(first_match_event(pre_pending, driver_num, subscribe_num) == e);
                }
                self.upcall(e.arg0, e.arg1, e.arg2);
            } else {
                proof {
                    assert(pre_pending[0] == e);
                    assert(wi >= 1);
                    assert(kernel.pending@[wi - 1] == pre_pending[wi]);
                    assert(pending_contains_for(kernel.pending@, driver_num, subscribe_num));
                }
                // An event for another slot stays in the queue: it is
                // re-queued at the back while this wait walks towards the
                // first event for its own slot.
                let requeued = kernel.schedule_upcall(
                    e.driver_num,
                    e.subscribe_num,
                    e.arg0,
                    e.arg1,
                    e.arg2,
                );
                proof {
                    assert(requeued);
                    assert(kernel.pending@ == pre_pending.skip(1).push(e));
                    lemma_first_match_push(pre_pending.skip(1), driver_num, subscribe_num, e);
                    assert(kernel.pending@[wi - 1] == pre_pending[wi]);
                    assert(pending_contains_for(kernel.pending@, driver_num, subscribe_num));
                }
            }
        }
    }

    fn reset(&mut self) {
        self.set(None);
    }
}

impl UpcallResult for StandardResultArg2 {
    type Arg = (usize, usize);

    open spec fn result_model(&self) -> Option<Result<(usize, usize), ErrorCode>> {
        match self.value {
            None => None,
            Some((x, y, z)) => Some(
                match decode_status(x) {
                    Ok(_) => Ok((y, z)),
                    Err(e) => Err(e),
                },
            ),
        }
    }

    fn upcall_result(&self) -> (r: Option<Result<(usize, usize), ErrorCode>>) {
        match self.get() {
            None => None,
            Some((x, y, z)) => Some(
                if x == 0 {
                    Ok((y, z))
                } else {
                    Err(ErrorCode::from_u32_or_fail(x as u32))
                },
            ),
        }
    }

    fn upcall_result_yield(&mut self, kernel: &mut Kernel, driver_num: u32, subscribe_num: u32) -> (r: Result<(usize, usize), ErrorCode>)
        ensures
            old(self).result_model() is Some ==> *final(self) == *old(self)
                && final(kernel).pending@ == old(kernel).pending@,
            old(self).result_model() is None ==> final(self).value == Some(
                (
                    first_match_event(old(kernel).pending@, driver_num, subscribe_num).arg0,
                    first_match_event(old(kernel).pending@, driver_num, subscribe_num).arg1,
                    first_match_event(old(kernel).pending@, driver_num, subscribe_num).arg2,
                ),
            ) && final(kernel).pending@.len() == old(kernel).pending@.len() - 1,
    {
        let ghost k0 = *old(kernel);
        loop
            invariant
                k0 == *old(kernel),
                kernel.wf(),
                kernel.running(),
                unchanged_except_pending(k0, *kernel),
                self.result_model() is Some || pending_contains_for(
                    kernel.pending@,
                    driver_num,
                    subscribe_num,
                ),
                old(self).result_model() is Some ==> *self == *old(self) && kernel.pending@
                    == k0.pending@,
                old(self).result_model() is None && self.result_model() is None
                    ==> kernel.pending@.len() == k0.pending@.len() && first_match_event(
                    kernel.pending@,
                    driver_num,
                    subscribe_num,
                ) == first_match_event(k0.pending@, driver_num, subscribe_num),
                old(self).result_model() is None && self.result_model() is Some ==> self.value
                    == Some(
                    (
                    first_match_event(k0.pending@, driver_num, subscribe_num).arg0,
                    first_match_event(k0.pending@, driver_num, subscribe_num).arg1,
                    first_match_event(k0.pending@, driver_num, subscribe_num).arg2,
                ),
                ) && kernel.pending@.len() == k0.pending@.len() - 1,
            decreases (if self.result_model() is Some {
                0int
            } else {
                1int
            }), first_match_from(kernel.pending@, driver_num, subscribe_num),
        {
            if let Some(result) = self.upcall_result() {
                return result;
            }
            let ghost pre_pending = kernel.pending@;
            let ghost wi = choose|i: int|
                0 <= i < pre_pending.len() && pending_matches(
                    #[trigger] pre_pending[i],
                    driver_num,
                    subscribe_num,
                );
            let e = kernel.yield_wait();
            if e.driver_num == driver_num && e.subscribe_num == subscribe_num {
                proof {
                    assert(first_match_event(pre_pending, driver_num, subscribe_num) == e);
                }
                self.upcall(e.arg0, e.arg1, e.arg2);
            } else {
                proof {
                    assert(pre_pending[0] == e);
                    assert(wi >= 1);
                    assert(kernel.pending@[wi - 1] == pre_pending[wi]);
                    assert(pending_contains_for(kernel.pending@, driver_num, subscribe_num));
                }
                // An event for another slot stays in the queue: it is
                // re-queued at the back while this wait walks towards the
                // first event for its own slot.
                let requeued = kernel.schedule_upcall(
                    e.driver_num,
                    e.subscribe_num,
                    e.arg0,
                    e.arg1,
                    e.arg2,
                );
                proof {
                    assert(requeued);
                    assert(kernel.pending@ == pre_pending.skip(1).push(e));
                    lemma_first_match_push(pre_pending.skip(1), driver_num, subscribe_num, e);
                    assert(kernel.pending@[wi - 1] == pre_pending[wi]);
                    assert(pending_contains_for(kernel.pending@, driver_num, subscribe_num));
                }
            }
        }
    }

    fn reset(&mut self) {
        self.set(None);
    }
}

} // verus!
