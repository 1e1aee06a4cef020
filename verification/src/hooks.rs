//! What each hooked libc entry point decides before and after it reaches
//! the real function: what it logs, whether it forwards, and what it
//! answers when it does not.
use vstd::prelude::*;
use crate::libc_fns::RealFns;
use crate::messages::LogEvent;
use crate::registry::{ThreadRegistry, registered_after};
use crate::slots::{Slot, SlotTable, all_active_before, claimed, freed, start_of};
use crate::{MAX_THREADS, SA_RESTART, SIGUSR2, STDOUT_FD};

verus! {

/// What the hooks answer when the real function they would call was not
/// found.
pub const UNAVAILABLE: i32 = -1;

// ---------------------------------------------------------------------------
// Installing and checking the freeze handler
// ---------------------------------------------------------------------------

/// The action installed for a signal: the handler's address, the flags and
/// the restorer's address. The action never blocks further signals while
/// the handler runs (its signal mask is always empty), so no mask is
/// carried.
#[derive(Clone, Copy, Debug, PartialEq, Eq, Structural)]
pub struct SigactionRequest {
    pub handler: usize,
    pub flags: i32,
    pub restorer: usize,
}

/// How the freeze handler gets installed.
#[derive(Clone, Copy, Debug, PartialEq, Eq, Structural)]
pub enum InstallCall {
    /// Call the real `sigaction` for `SIGUSR2` with this request, no old
    /// action wanted; its return value is the result.
    Call(SigactionRequest),
    /// The real `sigaction` was not found: the result is `UNAVAILABLE`.
    Unavailable,
}

/// How `handler` is installed for `SIGUSR2`.
pub open spec fn install_call_spec(handler: usize, found: RealFns) -> InstallCall {
    if found.sigaction {
        InstallCall::Call(SigactionRequest { handler, flags: SA_RESTART, restorer: 0 })
    } else {
        InstallCall::Unavailable
    }
}

/// How `handler` is installed for `SIGUSR2`: through the real `sigaction`,
/// with `SA_RESTART` and an empty mask, or not at all when it was not found.
pub fn install_signal_handler(handler: usize, found: RealFns) -> (c: InstallCall)
    ensures
        c == install_call_spec(handler, found),
{
    if found.sigaction {
        InstallCall::Call(SigactionRequest { handler, flags: SA_RESTART, restorer: 0 })
    } else {
        InstallCall::Unavailable
    }
}

/// Whether the handler that the real `sigaction` reports for `SIGUSR2` is
/// `expected`. `reported` is `None` when the real `sigaction` was not found
/// (the check then fails).
pub fn verify_handler(reported: Option<usize>, expected: usize) -> (ok: bool)
    ensures
        ok == (reported == Some(expected)),
{
    match reported {
        Some(h) => h == expected,
        None => false,
    }
}

// ---------------------------------------------------------------------------
// write
// ---------------------------------------------------------------------------

/// Where a hooked `write` goes after the optional log line.
#[derive(Clone, Copy, Debug, PartialEq, Eq, Structural)]
pub enum WriteRoute {
    /// To the real `write`, whose result is returned.
    Real,
    /// Straight to the kernel's write system call, whose result is returned.
    RawSyscall,
}

/// What a hooked `write` does.
#[derive(Clone, Copy, Debug, PartialEq, Eq, Structural)]
pub struct WritePlan {
    /// Whether `LogEvent::WriteCaptured` is logged first, with the re-entry
    /// flag set while it is written and cleared afterwards.
    pub log_capture: bool,
    pub route: WriteRoute,
}

/// What `write(fd, ..)` does when the re-entry flag is `in_hook`.
pub open spec fn write_plan_spec(fd: i32, in_hook: bool, found: RealFns) -> WritePlan {
    WritePlan {
        log_capture: fd == STDOUT_FD && !in_hook,
        route: if found.write { WriteRoute::Real } else { WriteRoute::RawSyscall },
    }
}

/// The hooked `write`: a write to standard output is reported unless the
/// library is already inside the hook; every write is then passed on
/// unchanged, to the real `write` if it was found, else to the kernel.
pub fn write(fd: i32, in_hook: bool, found: RealFns) -> (p: WritePlan)
    ensures
        p == write_plan_spec(fd, in_hook, found),
{
    WritePlan {
        log_capture: fd == STDOUT_FD && !in_hook,
        route: if found.write { WriteRoute::Real } else { WriteRoute::RawSyscall },
    }
}

// ---------------------------------------------------------------------------
// sigaction
// ---------------------------------------------------------------------------

/// What a hooked `sigaction` does.
#[derive(Clone, Copy, Debug, PartialEq, Eq, Structural)]
pub enum SigactionPlan {
    /// `SIGUSR2` is the library's: nothing is installed and the answer is 0.
    /// When `query_old`, the current action is read into the caller's
    /// `oldact` through the real `sigaction`; when `log_blocked`,
    /// `LogEvent::SigactionBlocked` is logged.
    Guard { query_old: bool, log_blocked: bool },
    /// Any other signal: the call goes to the real `sigaction` unchanged,
    /// whose result is returned.
    Forward,
    /// Any other signal while the real `sigaction` is missing: the answer
    /// is `UNAVAILABLE`.
    Unavailable,
}

impl SigactionPlan {
    /// The answer given without calling the real function, if any.
    pub open spec fn reply_spec(self) -> Option<i32> {
        match self {
            SigactionPlan::Guard { .. } => Some(0),
            SigactionPlan::Forward => None,
            SigactionPlan::Unavailable => Some(UNAVAILABLE),
        }
    }

    /// The answer given without calling the real function, if any.
    pub fn reply(&self) -> (r: Option<i32>)
        ensures
            r == self.reply_spec(),
    {
        match self {
            SigactionPlan::Guard { .. } => Some(0),
            SigactionPlan::Forward => None,
            SigactionPlan::Unavailable => Some(UNAVAILABLE),
        }
    }
}

/// What `sigaction(sig, act, oldact)` does; `act_null` and `oldact_null`
/// say which of the two pointers are null.
pub open spec fn sigaction_plan_spec(sig: i32, act_null: bool, oldact_null: bool, found: RealFns) -> SigactionPlan {
    if sig == SIGUSR2 {
        SigactionPlan::Guard { query_old: !oldact_null && found.sigaction, log_blocked: !act_null }
    } else if found.sigaction {
        SigactionPlan::Forward
    } else {
        SigactionPlan::Unavailable
    }
}

/// The hooked `sigaction`: `SIGUSR2` is guarded (its action can be read
/// but not replaced), every other signal goes to the real `sigaction`.
pub fn sigaction(sig: i32, act_null: bool, oldact_null: bool, found: RealFns) -> (p: SigactionPlan)
    ensures
        p == sigaction_plan_spec(sig, act_null, oldact_null, found),
{
    if sig == SIGUSR2 {
        SigactionPlan::Guard { query_old: !oldact_null && found.sigaction, log_blocked: !act_null }
    } else if found.sigaction {
        SigactionPlan::Forward
    } else {
        SigactionPlan::Unavailable
    }
}

// ---------------------------------------------------------------------------
// signal
// ---------------------------------------------------------------------------

/// What a hooked `signal` does.
#[derive(Clone, Copy, Debug, PartialEq, Eq, Structural)]
pub enum SignalPlan {
    /// `SIGUSR2` is the library's: nothing is installed and
    /// `LogEvent::SignalBlocked` is logged. When `query_old`, the current
    /// handler is read through the real `sigaction` and returned; otherwise
    /// the answer is the null handler.
    Guard { query_old: bool },
    /// Any other signal: the call goes to the real `signal`, whose result
    /// is returned.
    Forward,
    /// Any other signal while the real `signal` is missing: the answer is
    /// the null handler.
    Unavailable,
}

impl SignalPlan {
    /// The handler returned without calling the real `signal`, if any, with
    /// `queried` the handler read through the real `sigaction` (used only
    /// when the plan reads it).
    pub open spec fn reply_spec(self, queried: usize) -> Option<usize> {
        match self {
            SignalPlan::Guard { query_old } => Some(if query_old { queried } else { 0 }),
            SignalPlan::Forward => None,
            SignalPlan::Unavailable => Some(0),
        }
    }

    /// The handler returned without calling the real `signal`, if any: the
    /// handler read for `SIGUSR2` when the plan reads it, else the null
    /// handler; `None` when the call goes to the real `signal`.
    pub fn reply(&self, queried: usize) -> (r: Option<usize>)
        ensures
            r == self.reply_spec(queried),
    {
        match self {
            SignalPlan::Guard { query_old } => Some(if *query_old { queried } else { 0 }),
            SignalPlan::Forward => None,
            SignalPlan::Unavailable => Some(0),
        }
    }
}

/// What `signal(sig, handler)` does.
pub open spec fn signal_plan_spec(sig: i32, found: RealFns) -> SignalPlan {
    if sig == SIGUSR2 {
        SignalPlan::Guard { query_old: found.sigaction }
    } else if found.signal {
        SignalPlan::Forward
    } else {
        SignalPlan::Unavailable
    }
}

/// The hooked `signal`: `SIGUSR2` is guarded, every other signal goes to
/// the real `signal`.
pub fn signal(sig: i32, found: RealFns) -> (p: SignalPlan)
    ensures
        p == signal_plan_spec(sig, found),
{
    if sig == SIGUSR2 {
        SignalPlan::Guard { query_old: found.sigaction }
    } else if found.signal {
        SignalPlan::Forward
    } else {
        SignalPlan::Unavailable
    }
}

// ---------------------------------------------------------------------------
// pthread_create
// ---------------------------------------------------------------------------

/// Which thread creation a hooked `pthread_create` performs.
#[derive(Clone, Copy, Debug, PartialEq, Eq, Structural)]
pub enum CreateCall {
    /// The real `pthread_create` with the caller's own routine and argument.
    Original,
    /// The real `pthread_create` with the library's thread wrapper as
    /// routine and the slot index as argument; the wrapper records the new
    /// thread's id and then runs what the slot holds.
    Wrapped { slot: usize },
    /// No thread is created: the answer is `UNAVAILABLE`.
    Unavailable,
}

/// What a hooked `pthread_create` does.
#[derive(Clone, Copy, Debug, PartialEq, Eq, Structural)]
pub struct CreatePlan {
    pub call: CreateCall,
    /// Logged before the call.
    pub log: Option<LogEvent>,
    /// Whether the freeze handler is installed again after the call.
    pub reinstall: bool,
}

/// The hooked `pthread_create`, with `routine` and `arg` the caller's
/// start routine and argument (as addresses). The lowest free start slot
/// receives them and the new thread starts in the wrapper; with no free
/// slot the thread is created as asked and goes unregistered. After every
/// call the freeze handler is installed again, once the library has
/// installed it at start-up.
pub fn pthread_create(
    slots: &mut SlotTable,
    routine: usize,
    arg: usize,
    found: RealFns,
    handlers_installed: bool,
) -> (p: CreatePlan)
    ensures
        // With no free slot: nothing changes, the thread is created as asked.
        all_active_before(old(slots)@, MAX_THREADS as int) ==> {
            &&& final(slots)@ == old(slots)@
            &&& p.log == Some(LogEvent::NoFreeSlot)
            &&& p.call == (if found.pthread_create { CreateCall::Original } else { CreateCall::Unavailable })
        },
        p.reinstall == handlers_installed,
        // With a free slot: the lowest one is used.
        !all_active_before(old(slots)@, MAX_THREADS as int) ==> exists|i: usize|
            #![trigger old(slots)@[i as int]]
            {
                &&& i < MAX_THREADS
                &&& !old(slots)@[i as int].active
                &&& all_active_before(old(slots)@, i as int)
                &&& if found.pthread_create {
                    &&& final(slots)@ == claimed(old(slots)@, i as int, routine, arg)
                    &&& p.call == CreateCall::Wrapped { slot: i }
                    &&& p.log.is_none()
                } else {
                    &&& final(slots)@ == freed(claimed(old(slots)@, i as int, routine, arg), i as int)
                    &&& p.call == CreateCall::Unavailable
                    &&& p.log == Some(LogEvent::PthreadCreateUnavailable)
                }
            },
{
    match slots.find_free() {
        None => {
            CreatePlan {
                log: Some(LogEvent::NoFreeSlot),
                call: if found.pthread_create { CreateCall::Original } else { CreateCall::Unavailable },
                reinstall: handlers_installed,
            }
        },
        Some(i) => {
            slots.claim(i, routine, arg);
            if found.pthread_create {
                CreatePlan { call: CreateCall::Wrapped { slot: i }, log: None, reinstall: handlers_installed }
            } else {
                slots.release(i);
                CreatePlan {
                    call: CreateCall::Unavailable,
                    log: Some(LogEvent::PthreadCreateUnavailable),
                    reinstall: handlers_installed,
                }
            }
        },
    }
}

/// What a new thread started through start slot `slot` runs: the routine
/// and argument parked there, or nothing when the routine's address is 0.
pub open spec fn thread_start_spec(slots: Seq<Slot>, slot: int) -> Option<(usize, usize)> {
    if start_of(slots, slot).0 == 0 {
        None
    } else {
        Some(start_of(slots, slot))
    }
}

/// The library's thread wrapper, in a new thread `tid` started through
/// start slot `slot`: records the thread's id (unless the registry is
/// full), takes the routine and argument parked in the slot, freeing it,
/// and answers which routine to run on which argument. `None` means no
/// routine is run and the thread ends with a null result.
pub fn stasis_thread_wrapper(registry: &mut ThreadRegistry, slots: &mut SlotTable, tid: i32, slot: usize) -> (r:
    Option<(usize, usize)>)
    requires
        slot < MAX_THREADS,
    ensures
        final(registry)@ == registered_after(old(registry)@, tid),
        r == thread_start_spec(old(slots)@, slot as int),
        final(slots)@ == freed(old(slots)@, slot as int),
{
    registry.register(tid);
    let (routine, arg) = slots.take_start(slot);
    if routine == 0 {
        None
    } else {
        Some((routine, arg))
    }
}

/// A thread created through a start slot runs exactly the caller's routine
/// on the caller's argument: thread creation parks them in the lowest free
/// slot, and the wrapper, started on that slot, hands them back (a start
/// routine is never at address 0).
pub proof fn lemma_created_thread_runs_callers_routine(slots: Seq<Slot>, k: int, routine: usize, arg: usize)
    requires
        0 <= k < slots.len(),
        routine != 0,
    ensures
        thread_start_spec(claimed(slots, k, routine, arg), k) == Some((routine, arg)),
        !freed(claimed(slots, k, routine, arg), k)[k].active,
{
}

/// For `SIGUSR2`, `sigaction` reads the current action into the caller's
/// `oldact` exactly when `oldact` is non-null and the real `sigaction` was
/// found, whatever `act` is; it logs the blocked request exactly when
/// `act` is non-null; and it answers 0.
pub proof fn lemma_sigusr2_sigaction_reads_old(act_null: bool, oldact_null: bool, found: RealFns)
    ensures
        sigaction_plan_spec(SIGUSR2, act_null, oldact_null, found) == (SigactionPlan::Guard {
            query_old: !oldact_null && found.sigaction,
            log_blocked: !act_null,
        }),
        (SigactionPlan::Guard { query_old: !oldact_null && found.sigaction, log_blocked: !act_null }).reply_spec()
            == Some(0i32),
{
}

/// For `SIGUSR2`, `signal` answers exactly the handler read back through
/// the real `sigaction`, unchanged, when that function was found, and the
/// null handler when it was not.
pub proof fn lemma_sigusr2_signal_returns_current(found: RealFns, queried: usize)
    ensures
        (SignalPlan::Guard { query_old: true }).reply_spec(queried) == Some(queried),
        (SignalPlan::Guard { query_old: false }).reply_spec(queried) == Some(0usize),
        found.sigaction ==> signal_plan_spec(SIGUSR2, found).reply_spec(queried) == Some(queried),
        !found.sigaction ==> signal_plan_spec(SIGUSR2, found).reply_spec(queried) == Some(0usize),
{
}

/// Installing the freeze handler hands the real `sigaction` the handler's
/// address unchanged, with `SA_RESTART` and no restorer, whenever it was
/// found; so the handler then reported back is the one that
/// `verify_handler` expects. Without the real `sigaction` nothing is
/// installed.
pub proof fn lemma_install_carries_handler(handler: usize, found: RealFns)
    ensures
        found.sigaction ==> install_call_spec(handler, found) == InstallCall::Call(
            SigactionRequest { handler: handler, flags: SA_RESTART, restorer: 0 },
        ),
        found.sigaction ==> (install_call_spec(handler, found) matches InstallCall::Call(req) && req.handler
            == handler),
        !found.sigaction ==> install_call_spec(handler, found) == InstallCall::Unavailable,
{
}

/// `SIGUSR2` stays the library's: neither `sigaction` nor `signal` ever
/// passes a request for it on, `sigaction` answers 0 for it whatever the
/// caller passes, and the current action is only ever read.
pub proof fn lemma_sigusr2_guarded(act_null: bool, oldact_null: bool, found: RealFns)
    ensures
        sigaction_plan_spec(SIGUSR2, act_null, oldact_null, found) is Guard,
        sigaction_plan_spec(SIGUSR2, act_null, oldact_null, found).reply_spec() == Some(0i32),
        signal_plan_spec(SIGUSR2, found) is Guard,
        forall|q: usize| #[trigger] signal_plan_spec(SIGUSR2, found).reply_spec(q) is Some,
{
}

/// Every other signal reaches the real function unchanged once it was
/// found, and fails with `UNAVAILABLE` (or a null handler) when it was not.
pub proof fn lemma_other_signals_pass_through(sig: i32, act_null: bool, oldact_null: bool, found: RealFns)
    requires
        sig != SIGUSR2,
    ensures
        found.sigaction ==> sigaction_plan_spec(sig, act_null, oldact_null, found) == SigactionPlan::Forward,
        !found.sigaction ==> sigaction_plan_spec(sig, act_null, oldact_null, found).reply_spec() == Some(UNAVAILABLE),
        found.signal ==> signal_plan_spec(sig, found) == SignalPlan::Forward,
        !found.signal ==> signal_plan_spec(sig, found) == SignalPlan::Unavailable,
{
}

/// A write made while the library is already inside the hook (its own log
/// line) is never reported again, and only standard output is reported.
pub proof fn lemma_write_no_recursion(fd: i32, found: RealFns)
    ensures
        !write_plan_spec(fd, true, found).log_capture,
        fd != STDOUT_FD ==> !write_plan_spec(fd, false, found).log_capture,
{
}

} // verus!
