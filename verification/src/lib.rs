//! Decision logic of a preloadable library that freezes every thread of a
//! process on `SIGUSR2`: which real libc functions were found, how the hooks
//! answer their callers, which threads are known, which start slots are in
//! use, and who sends the freeze broadcast.
use vstd::prelude::*;

pub mod messages;
pub mod hooks;
pub mod init;
pub mod freeze;
pub mod libc_fns;
pub mod registry;
pub mod slots;
pub mod sysno;

verus! {

/// Number of thread ids the registry can hold, and number of start slots.
pub const MAX_THREADS: usize = 128;

/// The one signal the library claims for itself (`SIGUSR2`).
pub const SIGUSR2: i32 = 12;

/// `SA_RESTART`, the only flag set when the freeze handler is installed.
pub const SA_RESTART: i32 = 0x10000000;

/// File descriptor whose writes are reported.
pub const STDOUT_FD: i32 = 1;

/// File descriptor the library logs to.
pub const STDERR_FD: i32 = 2;

/// Seconds a frozen thread sleeps per round.
pub const FREEZE_SLEEP_SECS: i64 = 3600;

} // verus!
