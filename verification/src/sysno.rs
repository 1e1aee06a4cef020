//! Linux system call numbers the library issues directly, per architecture.
use vstd::prelude::*;

verus! {

/// The architectures the library runs on.
#[derive(Clone, Copy, Debug, PartialEq, Eq, Structural)]
pub enum Arch {
    X86_64,
    Aarch64,
}

/// The system calls the library makes without going through libc.
#[derive(Clone, Copy, Debug, PartialEq, Eq, Structural)]
pub enum Syscall {
    Write,
    Gettid,
    Getpid,
    Tgkill,
    Nanosleep,
}

/// The kernel's number for `call` on `arch`.
pub open spec fn syscall_number_spec(arch: Arch, call: Syscall) -> i64 {
    match (arch, call) {
        (Arch::X86_64, Syscall::Write) => 1,
        (Arch::X86_64, Syscall::Gettid) => 186,
        (Arch::X86_64, Syscall::Getpid) => 39,
        (Arch::X86_64, Syscall::Tgkill) => 234,
        (Arch::X86_64, Syscall::Nanosleep) => 35,
        (Arch::Aarch64, Syscall::Write) => 64,
        (Arch::Aarch64, Syscall::Gettid) => 178,
        (Arch::Aarch64, Syscall::Getpid) => 172,
        (Arch::Aarch64, Syscall::Tgkill) => 131,
        (Arch::Aarch64, Syscall::Nanosleep) => 101,
    }
}

/// The kernel's number for `call` on `arch`.
pub fn syscall_number(arch: Arch, call: Syscall) -> (n: i64)
    ensures
        n == syscall_number_spec(arch, call),
{
    match arch {
        Arch::X86_64 => match call {
            Syscall::Write => 1,
            Syscall::Gettid => 186,
            Syscall::Getpid => 39,
            Syscall::Tgkill => 234,
            Syscall::Nanosleep => 35,
        },
        Arch::Aarch64 => match call {
            Syscall::Write => 64,
            Syscall::Gettid => 178,
            Syscall::Getpid => 172,
            Syscall::Tgkill => 131,
            Syscall::Nanosleep => 101,
        },
    }
}

/// On each architecture, different calls have different numbers, so no
/// call is ever issued in place of another.
pub proof fn lemma_numbers_distinct(arch: Arch, a: Syscall, b: Syscall)
    requires
        a != b,
    ensures
        syscall_number_spec(arch, a) != syscall_number_spec(arch, b),
{
}

} // verus!
