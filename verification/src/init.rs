//! Start-up of the library, run once before the program's `main`: record
//! the main thread, look up the real libc functions, install the freeze
//! handler and check that it stuck. The library decides; the caller looks
//! symbols up, installs, checks and writes the log lines, then reports back.
use vstd::prelude::*;
use crate::libc_fns::{RealFns, Symbol, none_found, record_lookup};
use crate::messages::LogEvent;
use crate::registry::ThreadRegistry;

verus! {

/// Where start-up stands.
#[derive(Clone, Copy, Debug, PartialEq, Eq, Structural)]
pub enum InitPhase {
    LookupSigaction,
    LookupSignal,
    LookupWrite,
    LookupPthreadCreate,
    Install,
    Verify,
    Reinstall,
    Reverify,
    Finish,
    Done,
    Aborted,
}

/// What the caller reports after performing an action.
#[derive(Clone, Copy, Debug, PartialEq, Eq, Structural)]
pub enum InitEvent {
    /// The symbol asked for was found (`true`) or not.
    Looked(bool),
    /// The real `sigaction` installing the handler returned this.
    Installed(i32),
    /// The handler reported for `SIGUSR2` is (`true`) or is not the freeze
    /// handler.
    Verified(bool),
    /// The handlers were marked as installed.
    Marked,
}

/// What the caller does next.
#[derive(Clone, Copy, Debug, PartialEq, Eq, Structural)]
pub enum InitAction {
    /// Look the symbol up, keep it if found, report `Looked`.
    Lookup(Symbol),
    /// Install the freeze handler for `SIGUSR2`, report `Installed`.
    InstallHandler,
    /// Read the handler installed for `SIGUSR2`, report `Verified`.
    VerifyHandler,
    /// Mark the handlers as installed (thread creation then installs the
    /// handler again after each new thread), report `Marked`.
    MarkInstalled,
    /// Start-up is over.
    Stop,
}

/// One answer of the start-up machine: a line to log, then an action.
#[derive(Clone, Copy, Debug, PartialEq, Eq, Structural)]
pub struct InitStep {
    pub log: Option<LogEvent>,
    pub action: InitAction,
}

/// The action awaited in `phase`.
pub open spec fn pending_spec(phase: InitPhase) -> InitAction {
    match phase {
        InitPhase::LookupSigaction => InitAction::Lookup(Symbol::Sigaction),
        InitPhase::LookupSignal => InitAction::Lookup(Symbol::Signal),
        InitPhase::LookupWrite => InitAction::Lookup(Symbol::Write),
        InitPhase::LookupPthreadCreate => InitAction::Lookup(Symbol::PthreadCreate),
        InitPhase::Install => InitAction::InstallHandler,
        InitPhase::Verify => InitAction::VerifyHandler,
        InitPhase::Reinstall => InitAction::InstallHandler,
        InitPhase::Reverify => InitAction::VerifyHandler,
        InitPhase::Finish => InitAction::MarkInstalled,
        InitPhase::Done => InitAction::Stop,
        InitPhase::Aborted => InitAction::Stop,
    }
}

/// One transition: from `phase` with `found`, on `ev`, the next phase,
/// what is then known to be found, the line to log and the next action.
/// An event that does not answer the pending action changes nothing and
/// asks for that action again.
pub open spec fn step_spec(phase: InitPhase, found: RealFns, ev: InitEvent) -> (InitPhase, RealFns, Option<LogEvent>, InitAction) {
    match (phase, ev) {
        (InitPhase::LookupSigaction, InitEvent::Looked(ok)) => if ok {
            (InitPhase::LookupSignal, record_lookup(found, Symbol::Sigaction, true), None, InitAction::Lookup(Symbol::Signal))
        } else {
            (InitPhase::Aborted, found, Some(LogEvent::SigactionMissing), InitAction::Stop)
        },
        (InitPhase::LookupSignal, InitEvent::Looked(ok)) => (
            InitPhase::LookupWrite,
            record_lookup(found, Symbol::Signal, ok),
            if ok { None } else { Some(LogEvent::SignalMissing) },
            InitAction::Lookup(Symbol::Write),
        ),
        (InitPhase::LookupWrite, InitEvent::Looked(ok)) => if ok {
            (InitPhase::LookupPthreadCreate, record_lookup(found, Symbol::Write, true), None, InitAction::Lookup(Symbol::PthreadCreate))
        } else {
            (InitPhase::Aborted, found, Some(LogEvent::WriteMissing), InitAction::Stop)
        },
        (InitPhase::LookupPthreadCreate, InitEvent::Looked(ok)) => (
            InitPhase::Install,
            record_lookup(found, Symbol::PthreadCreate, ok),
            if ok { None } else { Some(LogEvent::PthreadCreateMissing) },
            InitAction::InstallHandler,
        ),
        (InitPhase::Install, InitEvent::Installed(ret)) => (
            InitPhase::Verify,
            found,
            Some(if ret != 0 { LogEvent::InstallFailed } else { LogEvent::InstallOk }),
            InitAction::VerifyHandler,
        ),
        (InitPhase::Verify, InitEvent::Verified(ok)) => if ok {
            (InitPhase::Finish, found, Some(LogEvent::VerifyOk), InitAction::MarkInstalled)
        } else {
            (InitPhase::Reinstall, found, Some(LogEvent::VerifyMismatch), InitAction::InstallHandler)
        },
        (InitPhase::Reinstall, InitEvent::Installed(_)) => (InitPhase::Reverify, found, None, InitAction::VerifyHandler),
        (InitPhase::Reverify, InitEvent::Verified(ok)) => (
            InitPhase::Finish,
            found,
            Some(if ok { LogEvent::ReinstallOk } else { LogEvent::ReinstallImpossible }),
            InitAction::MarkInstalled,
        ),
        (InitPhase::Finish, InitEvent::Marked) => (InitPhase::Done, found, Some(LogEvent::HookActive), InitAction::Stop),
        _ => (phase, found, None, pending_spec(phase)),
    }
}

/// Start-up in progress: the phase and which real functions were found.
pub struct InitMachine {
    phase: InitPhase,
    found: RealFns,
}

impl InitMachine {
    pub closed spec fn phase_spec(&self) -> InitPhase {
        self.phase
    }

    pub closed spec fn found_spec(&self) -> RealFns {
        self.found
    }

    /// The current phase.
    pub fn phase(&self) -> (p: InitPhase)
        ensures
            p == self.phase_spec(),
    {
        self.phase
    }

    /// Which real functions were found so far.
    pub fn found(&self) -> (f: RealFns)
        ensures
            f == self.found_spec(),
    {
        self.found
    }

    /// The action the machine waits for.
    pub fn pending(&self) -> (a: InitAction)
        ensures
            a == pending_spec(self.phase_spec()),
    {
        match self.phase {
            InitPhase::LookupSigaction => InitAction::Lookup(Symbol::Sigaction),
            InitPhase::LookupSignal => InitAction::Lookup(Symbol::Signal),
            InitPhase::LookupWrite => InitAction::Lookup(Symbol::Write),
            InitPhase::LookupPthreadCreate => InitAction::Lookup(Symbol::PthreadCreate),
            InitPhase::Install => InitAction::InstallHandler,
            InitPhase::Verify => InitAction::VerifyHandler,
            InitPhase::Reinstall => InitAction::InstallHandler,
            InitPhase::Reverify => InitAction::VerifyHandler,
            InitPhase::Finish => InitAction::MarkInstalled,
            InitPhase::Done => InitAction::Stop,
            InitPhase::Aborted => InitAction::Stop,
        }
    }

    /// Takes the caller's report on the last action; returns the line to
    /// log and the next action.
    pub fn step(&mut self, ev: InitEvent) -> (s: InitStep)
        ensures
            ({
                let (p, f, l, a) = step_spec(old(self).phase_spec(), old(self).found_spec(), ev);
                &&& final(self).phase_spec() == p
                &&& final(self).found_spec() == f
                &&& s.log == l
                &&& s.action == a
            }),
    {
        match (self.phase, ev) {
            (InitPhase::LookupSigaction, InitEvent::Looked(ok)) => {
                if ok {
                    self.found.record(Symbol::Sigaction, true);
                    self.phase = InitPhase::LookupSignal;
                    InitStep { log: None, action: InitAction::Lookup(Symbol::Signal) }
                } else {
                    self.phase = InitPhase::Aborted;
                    InitStep { log: Some(LogEvent::SigactionMissing), action: InitAction::Stop }
                }
            },
            (InitPhase::LookupSignal, InitEvent::Looked(ok)) => {
                self.found.record(Symbol::Signal, ok);
                self.phase = InitPhase::LookupWrite;
                InitStep {
                    log: if ok { None } else { Some(LogEvent::SignalMissing) },
                    action: InitAction::Lookup(Symbol::Write),
                }
            },
            (InitPhase::LookupWrite, InitEvent::Looked(ok)) => {
                if ok {
                    self.found.record(Symbol::Write, true);
                    self.phase = InitPhase::LookupPthreadCreate;
                    InitStep { log: None, action: InitAction::Lookup(Symbol::PthreadCreate) }
                } else {
                    self.phase = InitPhase::Aborted;
                    InitStep { log: Some(LogEvent::WriteMissing), action: InitAction::Stop }
                }
            },
            (InitPhase::LookupPthreadCreate, InitEvent::Looked(ok)) => {
                self.found.record(Symbol::PthreadCreate, ok);
                self.phase = InitPhase::Install;
                InitStep {
                    log: if ok { None } else { Some(LogEvent::PthreadCreateMissing) },
                    action: InitAction::InstallHandler,
                }
            },
            (InitPhase::Install, InitEvent::Installed(ret)) => {
                self.phase = InitPhase::Verify;
                InitStep {
                    log: Some(if ret != 0 { LogEvent::InstallFailed } else { LogEvent::InstallOk }),
                    action: InitAction::VerifyHandler,
                }
            },
            (InitPhase::Verify, InitEvent::Verified(ok)) => {
                if ok {
                    self.phase = InitPhase::Finish;
                    InitStep { log: Some(LogEvent::VerifyOk), action: InitAction::MarkInstalled }
                } else {
                    self.phase = InitPhase::Reinstall;
                    InitStep { log: Some(LogEvent::VerifyMismatch), action: InitAction::InstallHandler }
                }
            },
            (InitPhase::Reinstall, InitEvent::Installed(_)) => {
                self.phase = InitPhase::Reverify;
                InitStep { log: None, action: InitAction::VerifyHandler }
            },
            (InitPhase::Reverify, InitEvent::Verified(ok)) => {
                self.phase = InitPhase::Finish;
                InitStep {
                    log: Some(if ok { LogEvent::ReinstallOk } else { LogEvent::ReinstallImpossible }),
                    action: InitAction::MarkInstalled,
                }
            },
            (InitPhase::Finish, InitEvent::Marked) => {
                self.phase = InitPhase::Done;
                InitStep { log: Some(LogEvent::HookActive), action: InitAction::Stop }
            },
            _ => InitStep { log: None, action: self.pending() },
        }
    }
}

/// Library start-up: the main thread `main_tid` becomes the only
/// registered thread, and start-up begins by looking up `sigaction` with
/// nothing found yet.
pub fn stasis_init(registry: &mut ThreadRegistry, main_tid: i32) -> (m: InitMachine)
    ensures
        final(registry)@ == seq![main_tid],
        m.phase_spec() == InitPhase::LookupSigaction,
        m.found_spec() == none_found(),
{
    registry.reset_with_main(main_tid);
    InitMachine { phase: InitPhase::LookupSigaction, found: RealFns::new() }
}

/// What start-up knows in each phase: nothing is installed or checked
/// before both `sigaction` and `write` were found.
pub open spec fn init_inv(phase: InitPhase, found: RealFns) -> bool {
    match phase {
        InitPhase::LookupSigaction | InitPhase::Aborted => true,
        InitPhase::LookupSignal | InitPhase::LookupWrite => found.sigaction,
        _ => found.sigaction && found.write,
    }
}

/// Position of a phase along start-up; the two ends share the last one.
pub open spec fn rank(phase: InitPhase) -> int {
    match phase {
        InitPhase::LookupSigaction => 0,
        InitPhase::LookupSignal => 1,
        InitPhase::LookupWrite => 2,
        InitPhase::LookupPthreadCreate => 3,
        InitPhase::Install => 4,
        InitPhase::Verify => 5,
        InitPhase::Reinstall => 6,
        InitPhase::Reverify => 7,
        InitPhase::Finish => 8,
        InitPhase::Done => 9,
        InitPhase::Aborted => 9,
    }
}

/// Start-up after the caller reported `evs` in order, from `phase`.
pub open spec fn run(phase: InitPhase, found: RealFns, evs: Seq<InitEvent>) -> (InitPhase, RealFns)
    decreases evs.len(),
{
    if evs.len() == 0 {
        (phase, found)
    } else {
        let (p, f, _l, _a) = step_spec(phase, found, evs[0]);
        run(p, f, evs.drop_first())
    }
}

/// Every step keeps what start-up knows: the freeze handler is installed,
/// checked or marked only once `sigaction` and `write` were both found.
pub proof fn lemma_step_keeps_inv(phase: InitPhase, found: RealFns, ev: InitEvent)
    requires
        init_inv(phase, found),
    ensures
        ({
            let (p, f, _l, a) = step_spec(phase, found, ev);
            &&& init_inv(p, f)
            &&& (a == InitAction::InstallHandler || a == InitAction::VerifyHandler || a == InitAction::MarkInstalled)
                ==> f.sigaction && f.write
        }),
{
}

/// Start-up only moves forward: a step either leaves everything as it was
/// and asks for the same action again, or enters a later phase. So no
/// phase is entered twice, the handler is installed at most twice, and
/// start-up ends after at most ten answered actions.
pub proof fn lemma_step_moves_forward(phase: InitPhase, found: RealFns, ev: InitEvent)
    ensures
        ({
            let (p, f, l, a) = step_spec(phase, found, ev);
            ||| rank(p) > rank(phase)
            ||| (p == phase && f == found && l.is_none() && a == pending_spec(phase))
        }),
{
}

/// Once start-up is over, whether done or aborted, it stays over and asks
/// for nothing more.
pub proof fn lemma_end_is_final(phase: InitPhase, found: RealFns, ev: InitEvent)
    requires
        phase == InitPhase::Done || phase == InitPhase::Aborted,
    ensures
        step_spec(phase, found, ev) == (phase, found, None::<LogEvent>, InitAction::Stop),
{
}

/// Whatever the caller reports, a start-up that began with nothing found
/// completes only when `sigaction` and `write` were both found.
pub proof fn lemma_done_needs_sigaction_and_write(evs: Seq<InitEvent>)
    ensures
        ({
            let (p, f) = run(InitPhase::LookupSigaction, none_found(), evs);
            &&& init_inv(p, f)
            &&& p == InitPhase::Done ==> f.sigaction && f.write
        }),
{
    lemma_run_keeps_inv(InitPhase::LookupSigaction, none_found(), evs);
}

proof fn lemma_run_keeps_inv(phase: InitPhase, found: RealFns, evs: Seq<InitEvent>)
    requires
        init_inv(phase, found),
    ensures
        ({
            let (p, f) = run(phase, found, evs);
            init_inv(p, f)
        }),
    decreases evs.len(),
{
    if evs.len() > 0 {
        lemma_step_keeps_inv(phase, found, evs[0]);
        let (p, f, _l, _a) = step_spec(phase, found, evs[0]);
        lemma_run_keeps_inv(p, f, evs.drop_first());
    }
}

} // verus!
