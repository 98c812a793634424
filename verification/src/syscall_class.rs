//! Syscall class selectors and the argument selectors of the Yield and Exit
//! classes. Each is a small integer fixed by the kernel ABI.

use vstd::prelude::*;

verus! {

pub const YIELD: u32 = 0;
pub const SUBSCRIBE: u32 = 1;
pub const COMMAND: u32 = 2;
pub const ALLOW_RW: u32 = 3;
pub const ALLOW_RO: u32 = 4;
pub const MEMOP: u32 = 5;
pub const EXIT: u32 = 6;

/// Yield argument: poll for a pending upcall, never suspend.
pub const YIELD_NO_WAIT: u32 = 0;

/// Yield argument: suspend until an upcall is pending.
pub const YIELD_WAIT: u32 = 1;

/// Exit argument: terminate the process.
pub const EXIT_TERMINATE: u32 = 0;

/// Exit argument: restart the process.
pub const EXIT_RESTART: u32 = 1;

/// Memop operation: move the memory break by an offset.
pub const MEMOP_SBRK: u32 = 1;

} // verus!
