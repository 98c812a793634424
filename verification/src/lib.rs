//! Userland syscall runtime for a Tock-style microkernel.
//!
//! The crate covers the layers a process binary stands on, leaves first:
//! the register codec (`register`) and the command-return codec
//! (`command_return`, `return_variant`, `error_code`) used on every syscall
//! boundary; the raw register-passing ABI, given semantics by a simulated
//! kernel (`fake`, `syscall_class`); the safe syscall facade built on the
//! raw calls (`syscalls`), which owns failure-tag interpretation and
//! routes protocol anomalies to a configurable policy (`default_config`);
//! the scope-bound registration guards and upcall cells that make
//! revocation of callbacks and shared buffers a structural guarantee
//! (`share`, `subscribe`, `allow_rw`, `allow_ro`); and a small LED driver
//! client on top of the facade (`leds`).
//!
//! Every operation carries a contract against the kernel model, so the
//! protocol properties — lossless register round trips, the exact
//! command-return decode matrix, the 64-bit split/join symmetry,
//! revoke-before-reuse and at-most-one-guard-per-slot — are machine-checked
//! rather than asserted in comments.

pub mod allow_ro;
pub mod allow_rw;
pub mod command_return;
pub mod default_config;
pub mod error_code;
pub mod fake;
pub mod leds;
pub mod register;
pub mod return_variant;
pub mod share;
pub mod subscribe;
pub mod syscall_class;
pub mod syscalls;
