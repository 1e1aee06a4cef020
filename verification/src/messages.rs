//! The lines the library writes to standard error, one per situation.
use vstd::prelude::*;

verus! {

/// A situation that the library reports on standard error.
#[derive(Clone, Copy, Debug, PartialEq, Eq, Structural)]
pub enum LogEvent {
    SignalReceived,
    FreezeStarted,
    ThreadFrozen,
    ThreadRegistered,
    SigactionMissing,
    SignalMissing,
    WriteMissing,
    PthreadCreateMissing,
    InstallFailed,
    InstallOk,
    VerifyOk,
    VerifyMismatch,
    ReinstallOk,
    ReinstallImpossible,
    HookActive,
    WriteCaptured,
    NoFreeSlot,
    PthreadCreateUnavailable,
    SigactionBlocked,
    SignalBlocked,
    Panic,
}

/// The exact text written for each situation.
pub open spec fn log_text(e: LogEvent) -> Seq<char> {
    match e {
        LogEvent::SignalReceived => "[STASIS] Signal recibida\n"@,
        LogEvent::FreezeStarted => "[STASIS] >>> FREEZE GLOBAL INICIADO <<<\n"@,
        LogEvent::ThreadFrozen => "[STASIS FREEZE] Thread congelado\n"@,
        LogEvent::ThreadRegistered => "[STASIS] Thread registrado (TID capturado)\n"@,
        LogEvent::SigactionMissing => "[STASIS FATAL] dlsym(sigaction) failed\n"@,
        LogEvent::SignalMissing => "[STASIS WARN] dlsym(signal) failed\n"@,
        LogEvent::WriteMissing => "[STASIS FATAL] dlsym(write) failed\n"@,
        LogEvent::PthreadCreateMissing => "[STASIS WARN] dlsym(pthread_create) failed\n"@,
        LogEvent::InstallFailed => "[STASIS FATAL] sigaction(SIGUSR2) fallo\n"@,
        LogEvent::InstallOk => "[STASIS] Handler SIGUSR2 instalado OK\n"@,
        LogEvent::VerifyOk => "[STASIS] SIGUSR2 handler verificado OK\n"@,
        LogEvent::VerifyMismatch => "[STASIS FATAL] SIGUSR2 handler no coincide - reintentando\n"@,
        LogEvent::ReinstallOk => "[STASIS] SIGUSR2 handler reinstalado OK\n"@,
        LogEvent::ReinstallImpossible => "[STASIS FATAL] SIGUSR2 handler IMPOSIBLE de instalar\n"@,
        LogEvent::HookActive => "[STASIS] Hook activo. Interceptando write()\n"@,
        LogEvent::WriteCaptured => "[STASIS HOOK] Capturado write en stdout\n"@,
        LogEvent::NoFreeSlot => "[STASIS WARN] No hay slots libres\n"@,
        LogEvent::PthreadCreateUnavailable => "[STASIS FATAL] pthread_create real no disponible\n"@,
        LogEvent::SigactionBlocked => "[STASIS GUARD] sigaction blocked on SIGUSR2\n"@,
        LogEvent::SignalBlocked => "[STASIS GUARD] signal() blocked on SIGUSR2\n"@,
        LogEvent::Panic => "[STASIS PANIC]\n"@,
    }
}

impl LogEvent {
    /// The line written for this situation.
    pub fn text(&self) -> (t: &'static str)
        ensures
            t@ == log_text(*self),
    {
        match self {
            LogEvent::SignalReceived => "[STASIS] Signal recibida\n",
            LogEvent::FreezeStarted => "[STASIS] >>> FREEZE GLOBAL INICIADO <<<\n",
            LogEvent::ThreadFrozen => "[STASIS FREEZE] Thread congelado\n",
            LogEvent::ThreadRegistered => "[STASIS] Thread registrado (TID capturado)\n",
            LogEvent::SigactionMissing => "[STASIS FATAL] dlsym(sigaction) failed\n",
            LogEvent::SignalMissing => "[STASIS WARN] dlsym(signal) failed\n",
            LogEvent::WriteMissing => "[STASIS FATAL] dlsym(write) failed\n",
            LogEvent::PthreadCreateMissing => "[STASIS WARN] dlsym(pthread_create) failed\n",
            LogEvent::InstallFailed => "[STASIS FATAL] sigaction(SIGUSR2) fallo\n",
            LogEvent::InstallOk => "[STASIS] Handler SIGUSR2 instalado OK\n",
            LogEvent::VerifyOk => "[STASIS] SIGUSR2 handler verificado OK\n",
            LogEvent::VerifyMismatch => "[STASIS FATAL] SIGUSR2 handler no coincide - reintentando\n",
            LogEvent::ReinstallOk => "[STASIS] SIGUSR2 handler reinstalado OK\n",
            LogEvent::ReinstallImpossible => "[STASIS FATAL] SIGUSR2 handler IMPOSIBLE de instalar\n",
            LogEvent::HookActive => "[STASIS] Hook activo. Interceptando write()\n",
            LogEvent::WriteCaptured => "[STASIS HOOK] Capturado write en stdout\n",
            LogEvent::NoFreeSlot => "[STASIS WARN] No hay slots libres\n",
            LogEvent::PthreadCreateUnavailable => "[STASIS FATAL] pthread_create real no disponible\n",
            LogEvent::SigactionBlocked => "[STASIS GUARD] sigaction blocked on SIGUSR2\n",
            LogEvent::SignalBlocked => "[STASIS GUARD] signal() blocked on SIGUSR2\n",
            LogEvent::Panic => "[STASIS PANIC]\n",
        }
    }
}

} // verus!
