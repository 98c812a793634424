//! The process-side registry behind the scoped registration guards.
//!
//! A guard for a subscribe or allow slot can only be obtained by claiming the
//! slot here, and claiming fails while the slot's previous guard is still
//! alive: at most one live guard exists per slot. The registry also hands
//! out the nonzero handles that stand in for the addresses of the borrowed
//! callback and buffer objects on the syscall boundary.

use vstd::prelude::*;
use std::collections::HashSet;
use crate::fake::slot_key;
use crate::fake::slot_key_exec;

verus! {

broadcast use vstd::std_specs::hash::group_hash_axioms;

/// The registry of live registration guards of one process.
pub struct ShareScope {
    /// Slot keys with a live `Subscribe` guard.
    pub subscribe_claims: HashSet<u64>,
    /// Slot keys with a live `AllowRw` guard.
    pub rw_claims: HashSet<u64>,
    /// Slot keys with a live `AllowRo` guard.
    pub ro_claims: HashSet<u64>,
    /// The next handle to hand out; always nonzero.
    pub next_handle: usize,
}

impl ShareScope {
    /// Handles stay nonzero.
    pub open spec fn wf(self) -> bool {
        self.next_handle >= 1
    }

    /// True iff a live `Subscribe` guard exists for this slot.
    pub open spec fn subscribe_claimed(self, driver_num: u32, subscribe_num: u32) -> bool {
        self.subscribe_claims@.contains(slot_key(driver_num, subscribe_num))
    }

    /// True iff a live `AllowRw` guard exists for this slot.
    pub open spec fn rw_claimed(self, driver_num: u32, buffer_num: u32) -> bool {
        self.rw_claims@.contains(slot_key(driver_num, buffer_num))
    }

    /// True iff a live `AllowRo` guard exists for this slot.
    pub open spec fn ro_claimed(self, driver_num: u32, buffer_num: u32) -> bool {
        self.ro_claims@.contains(slot_key(driver_num, buffer_num))
    }

    /// A fresh registry: no live guards.
    pub fn new() -> (s: ShareScope)
        ensures
            s.wf(),
            s.subscribe_claims@ == Set::<u64>::empty(),
            s.rw_claims@ == Set::<u64>::empty(),
            s.ro_claims@ == Set::<u64>::empty(),
    {
        ShareScope {
            subscribe_claims: HashSet::new(),
            rw_claims: HashSet::new(),
            ro_claims: HashSet::new(),
            next_handle: 1,
        }
    }

    /// Hands out a fresh nonzero handle.
    pub(crate) fn take_handle(&mut self) -> (h: usize)
        requires
            old(self).wf(),
        ensures
            final(self).wf(),
            h >= 1,
            final(self).subscribe_claims@ == old(self).subscribe_claims@,
            final(self).rw_claims@ == old(self).rw_claims@,
            final(self).ro_claims@ == old(self).ro_claims@,
    {
        let h = self.next_handle;
        self.next_handle = if h == usize::MAX {
            1
        } else {
            h + 1
        };
        h
    }

    /// Claims a subscribe slot; fails while another guard holds it.
    pub(crate) fn claim_subscribe(&mut self, driver_num: u32, subscribe_num: u32) -> (claimed:
        bool)
        requires
            old(self).wf(),
        ensures
            final(self).wf(),
            claimed == !old(self).subscribe_claimed(driver_num, subscribe_num),
            final(self).subscribe_claims@ == old(self).subscribe_claims@.insert(
                slot_key(driver_num, subscribe_num),
            ),
            final(self).rw_claims@ == old(self).rw_claims@,
            final(self).ro_claims@ == old(self).ro_claims@,
            final(self).next_handle == old(self).next_handle,
    {
        let key = slot_key_exec(driver_num, subscribe_num);
        self.subscribe_claims.insert(key)
    }

    /// Releases a subscribe slot claim.
    pub(crate) fn unclaim_subscribe(&mut self, driver_num: u32, subscribe_num: u32)
        requires
            old(self).wf(),
        ensures
            final(self).wf(),
            final(self).subscribe_claims@ == old(self).subscribe_claims@.remove(
                slot_key(driver_num, subscribe_num),
            ),
            !final(self).subscribe_claimed(driver_num, subscribe_num),
            final(self).rw_claims@ == old(self).rw_claims@,
            final(self).ro_claims@ == old(self).ro_claims@,
            final(self).next_handle == old(self).next_handle,
    {
        let key = slot_key_exec(driver_num, subscribe_num);
        self.subscribe_claims.remove(&key);
    }

    /// Claims a read-write allow slot; fails while another guard holds it.
    pub(crate) fn claim_rw(&mut self, driver_num: u32, buffer_num: u32) -> (claimed: bool)
        requires
            old(self).wf(),
        ensures
            final(self).wf(),
            claimed == !old(self).rw_claimed(driver_num, buffer_num),
            final(self).rw_claims@ == old(self).rw_claims@.insert(
                slot_key(driver_num, buffer_num),
            ),
            final(self).subscribe_claims@ == old(self).subscribe_claims@,
            final(self).ro_claims@ == old(self).ro_claims@,
            final(self).next_handle == old(self).next_handle,
    {
        let key = slot_key_exec(driver_num, buffer_num);
        self.rw_claims.insert(key)
    }

    /// Releases a read-write allow slot claim.
    pub(crate) fn unclaim_rw(&mut self, driver_num: u32, buffer_num: u32)
        requires
            old(self).wf(),
        ensures
            final(self).wf(),
            final(self).rw_claims@ == old(self).rw_claims@.remove(
                slot_key(driver_num, buffer_num),
            ),
            !final(self).rw_claimed(driver_num, buffer_num),
            final(self).subscribe_claims@ == old(self).subscribe_claims@,
            final(self).ro_claims@ == old(self).ro_claims@,
            final(self).next_handle == old(self).next_handle,
    {
        let key = slot_key_exec(driver_num, buffer_num);
        self.rw_claims.remove(&key);
    }

    /// Claims a read-only allow slot; fails while another guard holds it.
    pub(crate) fn claim_ro(&mut self, driver_num: u32, buffer_num: u32) -> (claimed: bool)
        requires
            old(self).wf(),
        ensures
            final(self).wf(),
            claimed == !old(self).ro_claimed(driver_num, buffer_num),
            final(self).ro_claims@ == old(self).ro_claims@.insert(
                slot_key(driver_num, buffer_num),
            ),
            final(self).subscribe_claims@ == old(self).subscribe_claims@,
            final(self).rw_claims@ == old(self).rw_claims@,
            final(self).next_handle == old(self).next_handle,
    {
        let key = slot_key_exec(driver_num, buffer_num);
        self.ro_claims.insert(key)
    }

    /// Releases a read-only allow slot claim.
    pub(crate) fn unclaim_ro(&mut self, driver_num: u32, buffer_num: u32)
        requires
            old(self).wf(),
        ensures
            final(self).wf(),
            final(self).ro_claims@ == old(self).ro_claims@.remove(
                slot_key(driver_num, buffer_num),
            ),
            !final(self).ro_claimed(driver_num, buffer_num),
            final(self).subscribe_claims@ == old(self).subscribe_claims@,
            final(self).rw_claims@ == old(self).rw_claims@,
            final(self).next_handle == old(self).next_handle,
    {
        let key = slot_key_exec(driver_num, buffer_num);
        self.ro_claims.remove(&key);
    }
}

} // verus!
