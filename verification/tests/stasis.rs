use core::sync::atomic::AtomicBool;

use lib::freeze::claim_broadcast;
use lib::hooks::{
    install_signal_handler, pthread_create, sigaction, signal, stasis_thread_wrapper, verify_handler, CreateCall, InstallCall,
    SigactionPlan, SigactionRequest, SignalPlan, WritePlan, WriteRoute, UNAVAILABLE,
};
use lib::init::{stasis_init, InitAction, InitEvent, InitMachine, InitPhase};
use lib::libc_fns::{RealFns, Symbol};
use lib::messages::LogEvent;
use lib::registry::ThreadRegistry;
use lib::slots::{Slot, SlotTable};
use lib::sysno::{syscall_number, Arch, Syscall};
use lib::{MAX_THREADS, SA_RESTART, SIGUSR2};

fn all_found() -> RealFns {
    RealFns { sigaction: true, signal: true, write: true, pthread_create: true }
}

fn none_found() -> RealFns {
    RealFns::new()
}

// ---------------------------------------------------------------- messages

#[test]
fn log_lines_are_exact() {
    assert_eq!(LogEvent::SignalReceived.text(), "[STASIS] Signal recibida\n");
    assert_eq!(LogEvent::FreezeStarted.text(), "[STASIS] >>> FREEZE GLOBAL INICIADO <<<\n");
    assert_eq!(LogEvent::HookActive.text(), "[STASIS] Hook activo. Interceptando write()\n");
    assert_eq!(LogEvent::WriteCaptured.text(), "[STASIS HOOK] Capturado write en stdout\n");
    assert_eq!(LogEvent::SigactionBlocked.text(), "[STASIS GUARD] sigaction blocked on SIGUSR2\n");
    assert_eq!(LogEvent::SignalBlocked.text(), "[STASIS GUARD] signal() blocked on SIGUSR2\n");
    assert_eq!(LogEvent::Panic.text(), "[STASIS PANIC]\n");
}

#[test]
fn every_log_line_is_a_stasis_line() {
    let all = [
        LogEvent::SignalReceived,
        LogEvent::FreezeStarted,
        LogEvent::ThreadFrozen,
        LogEvent::ThreadRegistered,
        LogEvent::SigactionMissing,
        LogEvent::SignalMissing,
        LogEvent::WriteMissing,
        LogEvent::PthreadCreateMissing,
        LogEvent::InstallFailed,
        LogEvent::InstallOk,
        LogEvent::VerifyOk,
        LogEvent::VerifyMismatch,
        LogEvent::ReinstallOk,
        LogEvent::ReinstallImpossible,
        LogEvent::HookActive,
        LogEvent::WriteCaptured,
        LogEvent::NoFreeSlot,
        LogEvent::PthreadCreateUnavailable,
        LogEvent::SigactionBlocked,
        LogEvent::SignalBlocked,
        LogEvent::Panic,
    ];
    for e in all.iter() {
        let t = e.text();
        assert!(t.starts_with("[STASIS"));
        assert!(t.ends_with('\n'));
    }
}

// ---------------------------------------------------------------- symbols

#[test]
fn symbol_names_are_nul_terminated() {
    assert_eq!(Symbol::Sigaction.c_name(), "sigaction\0");
    assert_eq!(Symbol::Signal.c_name(), "signal\0");
    assert_eq!(Symbol::Write.c_name(), "write\0");
    assert_eq!(Symbol::PthreadCreate.c_name(), "pthread_create\0");
}

#[test]
fn recording_a_lookup_changes_only_that_function() {
    let mut f = RealFns::new();
    f.record(Symbol::Write, true);
    assert_eq!(f, RealFns { sigaction: false, signal: false, write: true, pthread_create: false });
    f.record(Symbol::Write, false);
    assert_eq!(f, RealFns::new());
}

// ---------------------------------------------------------------- registry

#[test]
fn registry_starts_empty_and_main_becomes_only_entry() {
    let mut r = ThreadRegistry::new();
    assert_eq!(r.count(), 0);
    assert!(r.register(50));
    assert!(r.register(51));
    r.reset_with_main(42);
    assert_eq!(r.count(), 1);
    assert_eq!(r.tid_at(0), 42);
}

#[test]
fn registry_holds_at_most_max_threads() {
    let mut r = ThreadRegistry::new();
    for i in 0..MAX_THREADS {
        assert!(r.register(1000 + i as i32));
    }
    assert_eq!(r.count(), MAX_THREADS);
    assert!(!r.register(7));
    assert_eq!(r.count(), MAX_THREADS);
    assert_eq!(r.tid_at(MAX_THREADS - 1), 1000 + (MAX_THREADS as i32) - 1);
}

#[test]
fn broadcast_skips_self_and_dead_ids() {
    let mut r = ThreadRegistry::new();
    r.reset_with_main(100);
    assert!(r.register(101));
    assert!(r.register(0));
    assert!(r.register(-3));
    assert!(r.register(102));
    let me = 101;
    let targets: Vec<i32> = (0..r.count() + 2).filter_map(|i| r.broadcast_target(i, me)).collect();
    assert_eq!(targets, vec![100, 102]);
    assert_eq!(r.broadcast_target(1, me), None);
    assert_eq!(r.broadcast_target(5, me), None);
    assert_eq!(r.broadcast_target(1, 100), Some(101));
    assert_eq!(r.broadcast_targets(me), vec![100, 102]);
    assert_eq!(r.broadcast_targets(100), vec![101, 102]);
    assert_eq!(ThreadRegistry::new().broadcast_targets(1), Vec::<i32>::new());
}

// ---------------------------------------------------------------- slots

#[test]
fn slots_are_claimed_lowest_first_and_returned_on_start() {
    let mut t = SlotTable::new();
    assert_eq!(t.find_free(), Some(0));
    t.claim(0, 0x1000, 0x2000);
    assert_eq!(t.find_free(), Some(1));
    t.claim(1, 0x1100, 0x2100);
    assert_eq!(t.get(0), Slot { active: true, routine: 0x1000, arg: 0x2000 });
    assert_eq!(t.take_start(0), (0x1000, 0x2000));
    assert_eq!(t.get(0), Slot { active: false, routine: 0x1000, arg: 0x2000 });
    assert_eq!(t.find_free(), Some(0));
    t.release(1);
    assert_eq!(t.get(1), Slot { active: false, routine: 0x1100, arg: 0x2100 });
}

#[test]
fn full_slot_table_has_no_free_slot() {
    let mut t = SlotTable::new();
    for i in 0..MAX_THREADS {
        t.claim(i, i, i);
    }
    assert_eq!(t.find_free(), None);
    t.take_start(77);
    assert_eq!(t.find_free(), Some(77));
}

// ---------------------------------------------------------------- system calls

#[test]
fn syscall_numbers_per_arch() {
    assert_eq!(syscall_number(Arch::X86_64, Syscall::Write), 1);
    assert_eq!(syscall_number(Arch::X86_64, Syscall::Gettid), 186);
    assert_eq!(syscall_number(Arch::X86_64, Syscall::Getpid), 39);
    assert_eq!(syscall_number(Arch::X86_64, Syscall::Tgkill), 234);
    assert_eq!(syscall_number(Arch::X86_64, Syscall::Nanosleep), 35);
    assert_eq!(syscall_number(Arch::Aarch64, Syscall::Write), 64);
    assert_eq!(syscall_number(Arch::Aarch64, Syscall::Gettid), 178);
    assert_eq!(syscall_number(Arch::Aarch64, Syscall::Getpid), 172);
    assert_eq!(syscall_number(Arch::Aarch64, Syscall::Tgkill), 131);
    assert_eq!(syscall_number(Arch::Aarch64, Syscall::Nanosleep), 101);
}

// ---------------------------------------------------------------- handler install

#[test]
fn install_request_uses_sa_restart_and_no_restorer() {
    assert_eq!(
        install_signal_handler(0xdead, all_found()),
        InstallCall::Call(SigactionRequest { handler: 0xdead, flags: SA_RESTART, restorer: 0 })
    );
    assert_eq!(install_signal_handler(0xdead, none_found()), InstallCall::Unavailable);
}

#[test]
fn verify_handler_compares_reported_handler() {
    assert!(verify_handler(Some(0xbeef), 0xbeef));
    assert!(!verify_handler(Some(0xbeef), 0xbee0));
    assert!(!verify_handler(None, 0xbeef));
}

// ---------------------------------------------------------------- write

#[test]
fn write_reports_stdout_once_and_passes_through() {
    assert_eq!(lib::hooks::write(1, false, all_found()), WritePlan { log_capture: true, route: WriteRoute::Real });
    assert_eq!(lib::hooks::write(1, true, all_found()), WritePlan { log_capture: false, route: WriteRoute::Real });
    assert_eq!(lib::hooks::write(2, false, all_found()), WritePlan { log_capture: false, route: WriteRoute::Real });
    assert_eq!(lib::hooks::write(1, false, none_found()), WritePlan { log_capture: true, route: WriteRoute::RawSyscall });
}

// ---------------------------------------------------------------- sigaction / signal

#[test]
fn sigaction_guards_sigusr2() {
    let p = sigaction(SIGUSR2, false, false, all_found());
    assert_eq!(p, SigactionPlan::Guard { query_old: true, log_blocked: true });
    assert_eq!(p.reply(), Some(0));
    assert_eq!(sigaction(SIGUSR2, true, true, all_found()), SigactionPlan::Guard { query_old: false, log_blocked: false });
    assert_eq!(sigaction(SIGUSR2, false, false, none_found()), SigactionPlan::Guard { query_old: false, log_blocked: true });
}

#[test]
fn sigaction_forwards_other_signals() {
    let p = sigaction(10, false, false, all_found());
    assert_eq!(p, SigactionPlan::Forward);
    assert_eq!(p.reply(), None);
    let q = sigaction(10, false, false, none_found());
    assert_eq!(q, SigactionPlan::Unavailable);
    assert_eq!(q.reply(), Some(UNAVAILABLE));
    assert_eq!(UNAVAILABLE, -1);
}

#[test]
fn signal_guards_sigusr2_and_forwards_others() {
    assert_eq!(signal(SIGUSR2, all_found()), SignalPlan::Guard { query_old: true });
    assert_eq!(signal(SIGUSR2, all_found()).reply(0x99), Some(0x99));
    assert_eq!(signal(SIGUSR2, none_found()).reply(0x99), Some(0));
    assert_eq!(signal(15, all_found()).reply(0x99), None);
    assert_eq!(signal(SIGUSR2, none_found()), SignalPlan::Guard { query_old: false });
    assert_eq!(signal(15, all_found()), SignalPlan::Forward);
    let only_sigaction = RealFns { sigaction: true, signal: false, write: true, pthread_create: true };
    assert_eq!(signal(15, only_sigaction), SignalPlan::Unavailable);
    assert_eq!(signal(15, only_sigaction).reply(0x99), Some(0));
}

// ---------------------------------------------------------------- pthread_create

#[test]
fn pthread_create_wraps_through_lowest_slot() {
    let mut t = SlotTable::new();
    let p = pthread_create(&mut t, 0x10, 0x20, all_found(), true);
    assert_eq!(p.call, CreateCall::Wrapped { slot: 0 });
    assert_eq!(p.log, None);
    assert!(p.reinstall);
    assert_eq!(t.get(0), Slot { active: true, routine: 0x10, arg: 0x20 });
    let q = pthread_create(&mut t, 0x11, 0x21, all_found(), false);
    assert_eq!(q.call, CreateCall::Wrapped { slot: 1 });
    assert!(!q.reinstall);
    assert_eq!(t.take_start(1), (0x11, 0x21));
}

#[test]
fn pthread_create_without_real_function_frees_slot() {
    let mut t = SlotTable::new();
    let p = pthread_create(&mut t, 0x10, 0x20, none_found(), true);
    assert_eq!(p.call, CreateCall::Unavailable);
    assert_eq!(p.log, Some(LogEvent::PthreadCreateUnavailable));
    assert!(p.reinstall);
    assert_eq!(t.get(0), Slot { active: false, routine: 0x10, arg: 0x20 });
    assert_eq!(t.find_free(), Some(0));
}

#[test]
fn pthread_create_without_free_slot_creates_directly() {
    let mut t = SlotTable::new();
    for i in 0..MAX_THREADS {
        t.claim(i, 1, 1);
    }
    let p = pthread_create(&mut t, 0x10, 0x20, all_found(), true);
    assert_eq!(p.call, CreateCall::Original);
    assert_eq!(p.log, Some(LogEvent::NoFreeSlot));
    assert!(p.reinstall);
    let q0 = pthread_create(&mut t, 0x10, 0x20, all_found(), false);
    assert!(!q0.reinstall);
    let q = pthread_create(&mut t, 0x10, 0x20, none_found(), true);
    assert_eq!(q.call, CreateCall::Unavailable);
    assert_eq!(t.get(5), Slot { active: true, routine: 1, arg: 1 });
}

#[test]
fn new_thread_registers_and_gets_its_start() {
    let mut r = ThreadRegistry::new();
    r.reset_with_main(10);
    let mut t = SlotTable::new();
    let p = pthread_create(&mut t, 0x400, 0x500, all_found(), true);
    assert_eq!(p.call, CreateCall::Wrapped { slot: 0 });
    assert_eq!(stasis_thread_wrapper(&mut r, &mut t, 11, 0), Some((0x400, 0x500)));
    assert_eq!(r.count(), 2);
    assert_eq!(r.tid_at(1), 11);
    assert_eq!(t.get(0).active, false);
    assert_eq!(r.broadcast_target(1, 10), Some(11));
}

#[test]
fn new_thread_with_null_routine_runs_nothing() {
    let mut r = ThreadRegistry::new();
    r.reset_with_main(10);
    let mut t = SlotTable::new();
    t.claim(3, 0, 0x77);
    assert_eq!(stasis_thread_wrapper(&mut r, &mut t, 12, 3), None);
    assert_eq!(r.count(), 2);
    assert_eq!(r.tid_at(1), 12);
    assert_eq!(t.get(3), Slot { active: false, routine: 0, arg: 0x77 });
}

// ---------------------------------------------------------------- start-up

fn drive(m: &mut InitMachine, events: &[InitEvent]) -> Vec<(Option<LogEvent>, InitAction)> {
    events.iter().map(|e| {
        let s = m.step(*e);
        (s.log, s.action)
    }).collect()
}

#[test]
fn start_up_happy_path() {
    let mut r = ThreadRegistry::new();
    let mut m = stasis_init(&mut r, 4242);
    assert_eq!(r.count(), 1);
    assert_eq!(r.tid_at(0), 4242);
    assert_eq!(m.phase(), InitPhase::LookupSigaction);
    assert_eq!(m.pending(), InitAction::Lookup(Symbol::Sigaction));
    let steps = drive(&mut m, &[
        InitEvent::Looked(true),
        InitEvent::Looked(true),
        InitEvent::Looked(true),
        InitEvent::Looked(true),
        InitEvent::Installed(0),
        InitEvent::Verified(true),
        InitEvent::Marked,
    ]);
    assert_eq!(steps, vec![
        (None, InitAction::Lookup(Symbol::Signal)),
        (None, InitAction::Lookup(Symbol::Write)),
        (None, InitAction::Lookup(Symbol::PthreadCreate)),
        (None, InitAction::InstallHandler),
        (Some(LogEvent::InstallOk), InitAction::VerifyHandler),
        (Some(LogEvent::VerifyOk), InitAction::MarkInstalled),
        (Some(LogEvent::HookActive), InitAction::Stop),
    ]);
    assert_eq!(m.phase(), InitPhase::Done);
    assert_eq!(m.found(), all_found());
}

#[test]
fn start_up_aborts_without_sigaction() {
    let mut r = ThreadRegistry::new();
    let mut m = stasis_init(&mut r, 1);
    let s = m.step(InitEvent::Looked(false));
    assert_eq!(s.log, Some(LogEvent::SigactionMissing));
    assert_eq!(s.action, InitAction::Stop);
    assert_eq!(m.phase(), InitPhase::Aborted);
    let t = m.step(InitEvent::Looked(true));
    assert_eq!((t.log, t.action), (None, InitAction::Stop));
    assert_eq!(m.phase(), InitPhase::Aborted);
}

#[test]
fn start_up_aborts_without_write_and_warns_on_optional() {
    let mut r = ThreadRegistry::new();
    let mut m = stasis_init(&mut r, 1);
    let steps = drive(&mut m, &[InitEvent::Looked(true), InitEvent::Looked(false), InitEvent::Looked(false)]);
    assert_eq!(steps, vec![
        (None, InitAction::Lookup(Symbol::Signal)),
        (Some(LogEvent::SignalMissing), InitAction::Lookup(Symbol::Write)),
        (Some(LogEvent::WriteMissing), InitAction::Stop),
    ]);
    assert_eq!(m.phase(), InitPhase::Aborted);
    assert_eq!(m.found(), RealFns { sigaction: true, signal: false, write: false, pthread_create: false });
}

#[test]
fn start_up_retries_a_handler_that_did_not_stick() {
    let mut r = ThreadRegistry::new();
    let mut m = stasis_init(&mut r, 1);
    let steps = drive(&mut m, &[
        InitEvent::Looked(true),
        InitEvent::Looked(true),
        InitEvent::Looked(true),
        InitEvent::Looked(false),
        InitEvent::Installed(-1),
        InitEvent::Verified(false),
        InitEvent::Installed(0),
        InitEvent::Verified(false),
        InitEvent::Marked,
    ]);
    assert_eq!(steps, vec![
        (None, InitAction::Lookup(Symbol::Signal)),
        (None, InitAction::Lookup(Symbol::Write)),
        (None, InitAction::Lookup(Symbol::PthreadCreate)),
        (Some(LogEvent::PthreadCreateMissing), InitAction::InstallHandler),
        (Some(LogEvent::InstallFailed), InitAction::VerifyHandler),
        (Some(LogEvent::VerifyMismatch), InitAction::InstallHandler),
        (None, InitAction::VerifyHandler),
        (Some(LogEvent::ReinstallImpossible), InitAction::MarkInstalled),
        (Some(LogEvent::HookActive), InitAction::Stop),
    ]);
    assert_eq!(m.phase(), InitPhase::Done);
}

#[test]
fn start_up_reinstall_success_is_logged() {
    let mut r = ThreadRegistry::new();
    let mut m = stasis_init(&mut r, 1);
    drive(&mut m, &[
        InitEvent::Looked(true),
        InitEvent::Looked(true),
        InitEvent::Looked(true),
        InitEvent::Looked(true),
        InitEvent::Installed(0),
        InitEvent::Verified(false),
        InitEvent::Installed(0),
    ]);
    let s = m.step(InitEvent::Verified(true));
    assert_eq!((s.log, s.action), (Some(LogEvent::ReinstallOk), InitAction::MarkInstalled));
}

#[test]
fn start_up_ignores_an_unexpected_report() {
    let mut r = ThreadRegistry::new();
    let mut m = stasis_init(&mut r, 1);
    let s = m.step(InitEvent::Verified(true));
    assert_eq!((s.log, s.action), (None, InitAction::Lookup(Symbol::Sigaction)));
    assert_eq!(m.phase(), InitPhase::LookupSigaction);
    assert_eq!(m.found(), RealFns::new());
}

// ---------------------------------------------------------------- freeze

#[test]
fn only_first_claim_sends_broadcast() {
    let done = AtomicBool::new(false);
    assert!(claim_broadcast(&done));
    assert!(!claim_broadcast(&done));
    assert!(!claim_broadcast(&done));
}

