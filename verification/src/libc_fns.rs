//! The libc functions the library looks up and forwards to.
use vstd::prelude::*;

verus! {

/// A libc function the library hooks or needs, looked up by name in the
/// next object after the library.
#[derive(Clone, Copy, Debug, PartialEq, Eq, Structural)]
pub enum Symbol {
    Sigaction,
    Signal,
    Write,
    PthreadCreate,
}

/// The NUL-terminated name under which `s` is looked up.
pub open spec fn symbol_name(s: Symbol) -> Seq<char> {
    match s {
        Symbol::Sigaction => "sigaction\0"@,
        Symbol::Signal => "signal\0"@,
        Symbol::Write => "write\0"@,
        Symbol::PthreadCreate => "pthread_create\0"@,
    }
}

impl Symbol {
    /// The NUL-terminated name under which this function is looked up.
    pub fn c_name(&self) -> (n: &'static str)
        ensures
            n@ == symbol_name(*self),
    {
        match self {
            Symbol::Sigaction => "sigaction\0",
            Symbol::Signal => "signal\0",
            Symbol::Write => "write\0",
            Symbol::PthreadCreate => "pthread_create\0",
        }
    }
}

/// Which of the real functions were found.
#[derive(Clone, Copy, Debug, PartialEq, Eq, Structural)]
pub struct RealFns {
    pub sigaction: bool,
    pub signal: bool,
    pub write: bool,
    pub pthread_create: bool,
}

/// Nothing found yet.
pub open spec fn none_found() -> RealFns {
    RealFns { sigaction: false, signal: false, write: false, pthread_create: false }
}

/// `found` with the lookup of `s` recorded as `ok`.
pub open spec fn record_lookup(found: RealFns, s: Symbol, ok: bool) -> RealFns {
    match s {
        Symbol::Sigaction => RealFns { sigaction: ok, ..found },
        Symbol::Signal => RealFns { signal: ok, ..found },
        Symbol::Write => RealFns { write: ok, ..found },
        Symbol::PthreadCreate => RealFns { pthread_create: ok, ..found },
    }
}

impl RealFns {
    /// Nothing found yet.
    pub fn new() -> (r: Self)
        ensures
            r == none_found(),
    {
        RealFns { sigaction: false, signal: false, write: false, pthread_create: false }
    }

    /// Records whether the lookup of `s` found it.
    pub fn record(&mut self, s: Symbol, ok: bool)
        ensures
            *final(self) == record_lookup(*old(self), s, ok),
    {
        match s {
            Symbol::Sigaction => self.sigaction = ok,
            Symbol::Signal => self.signal = ok,
            Symbol::Write => self.write = ok,
            Symbol::PthreadCreate => self.pthread_create = ok,
        }
    }
}

} // verus!
