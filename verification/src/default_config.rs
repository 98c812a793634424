//! Syscall configuration policies.
//!
//! A policy decides what happens when the kernel signals a protocol
//! anomaly — a Subscribe call echoing a non-null previous upcall, or an
//! Allow call echoing a non-empty previous buffer. The default policy
//! ignores the signal; a counting policy records it, which also makes the
//! "invoked exactly once" behaviour of the hooks observable.

use vstd::prelude::*;

verus! {

/// A general purpose syscall configuration, which drivers should use as
/// their default syscall config: every anomaly signal is ignored.
pub struct DefaultConfig;

impl crate::subscribe::Config for DefaultConfig {
    open spec fn upcall_anomaly(pre: DefaultConfig, post: DefaultConfig, driver_num: u32, subscribe_num: u32) -> bool {
        true
    }

    fn returned_nonnull_upcall(&mut self, driver_num: u32, subscribe_num: u32) {
    }
}

impl crate::allow_rw::Config for DefaultConfig {
    open spec fn buffer_anomaly(pre: DefaultConfig, post: DefaultConfig, driver_num: u32, buffer_num: u32) -> bool {
        true
    }

    fn returned_nonzero_buffer(&mut self, driver_num: u32, buffer_num: u32) {
    }
}

impl crate::allow_ro::Config for DefaultConfig {
    open spec fn buffer_anomaly(pre: DefaultConfig, post: DefaultConfig, driver_num: u32, buffer_num: u32) -> bool {
        true
    }

    fn returned_nonzero_buffer(&mut self, driver_num: u32, buffer_num: u32) {
    }
}

/// Combo trait for all configs.
pub trait AllConfig: crate::subscribe::Config + crate::allow_rw::Config + crate::allow_ro::Config {

}

impl<T: crate::subscribe::Config + crate::allow_rw::Config + crate::allow_ro::Config> AllConfig for T {

}

/// What one invocation of a counting hook does to its counter: one step up,
/// stopping at the counter's ceiling.
pub open spec fn counted_once(pre: u64, post: u64) -> bool {
    post == if pre == u64::MAX {
        u64::MAX
    } else {
        (pre + 1) as u64
    }
}

/// A syscall configuration that counts the anomaly signals it receives, so
/// that application code (and tests) can observe how often each hook ran.
pub struct CountingConfig {
    /// How many non-null previous upcalls Subscribe calls have echoed.
    pub upcall_anomalies: u64,
    /// How many non-empty previous buffers Allow calls have echoed.
    pub buffer_anomalies: u64,
}

impl CountingConfig {
    /// A fresh policy with both counters at zero.
    pub fn new() -> (r: CountingConfig)
        ensures
            r.upcall_anomalies == 0,
            r.buffer_anomalies == 0,
    {
        CountingConfig { upcall_anomalies: 0, buffer_anomalies: 0 }
    }
}

impl crate::subscribe::Config for CountingConfig {
    open spec fn upcall_anomaly(pre: CountingConfig, post: CountingConfig, driver_num: u32, subscribe_num: u32) -> bool {
        counted_once(pre.upcall_anomalies, post.upcall_anomalies) && post.buffer_anomalies
            == pre.buffer_anomalies
    }

    fn returned_nonnull_upcall(&mut self, driver_num: u32, subscribe_num: u32) {
        if self.upcall_anomalies < u64::MAX {
            self.upcall_anomalies = self.upcall_anomalies + 1;
        }
    }
}

impl crate::allow_rw::Config for CountingConfig {
    open spec fn buffer_anomaly(pre: CountingConfig, post: CountingConfig, driver_num: u32, buffer_num: u32) -> bool {
        counted_once(pre.buffer_anomalies, post.buffer_anomalies) && post.upcall_anomalies
            == pre.upcall_anomalies
    }

    fn returned_nonzero_buffer(&mut self, driver_num: u32, buffer_num: u32) {
        if self.buffer_anomalies < u64::MAX {
            self.buffer_anomalies = self.buffer_anomalies + 1;
        }
    }
}

impl crate::allow_ro::Config for CountingConfig {
    open spec fn buffer_anomaly(pre: CountingConfig, post: CountingConfig, driver_num: u32, buffer_num: u32) -> bool {
        counted_once(pre.buffer_anomalies, post.buffer_anomalies) && post.upcall_anomalies
            == pre.upcall_anomalies
    }

    fn returned_nonzero_buffer(&mut self, driver_num: u32, buffer_num: u32) {
        if self.buffer_anomalies < u64::MAX {
            self.buffer_anomalies = self.buffer_anomalies + 1;
        }
    }
}

} // verus!
