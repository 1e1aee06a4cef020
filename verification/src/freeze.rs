//! The freeze broadcast: the guard that lets only the first thread hit by
//! `SIGUSR2` signal the others. Which threads it signals is
//! `ThreadRegistry::broadcast_target`.
use vstd::prelude::*;
use core::sync::atomic::AtomicBool;
use core::sync::atomic::Ordering;

verus! {

/// Tries to become the thread that sends the freeze broadcast: sets `done`
/// from false to true in one atomic step and returns whether this call did
/// it. Threads that find it already set receive `false` and only freeze.
/// The value inside the atomic is not modelled, so no clause states which
/// call wins.
pub fn claim_broadcast(done: &AtomicBool) -> bool {
    done.compare_exchange(false, true, Ordering::SeqCst, Ordering::SeqCst).is_ok()
}

} // verus!
