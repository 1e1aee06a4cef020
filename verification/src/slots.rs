//! Start slots: where a thread creation parks the caller's start routine
//! and argument until the new thread picks them up.
use vstd::prelude::*;
use crate::MAX_THREADS;

verus! {

/// One start slot. `routine` and `arg` are the addresses the caller passed
/// to thread creation; `active` is set while the new thread has not yet
/// taken them.
#[derive(Clone, Copy, Debug, PartialEq, Eq, Structural)]
pub struct Slot {
    pub active: bool,
    pub routine: usize,
    pub arg: usize,
}

/// Whether every slot before `i` is in use.
pub open spec fn all_active_before(slots: Seq<Slot>, i: int) -> bool {
    forall|j: int| 0 <= j < i ==> #[trigger] slots[j].active
}

/// The slots after slot `i` receives a start routine and argument.
pub open spec fn claimed(slots: Seq<Slot>, i: int, routine: usize, arg: usize) -> Seq<Slot> {
    slots.update(i, Slot { active: true, routine, arg })
}

/// The slots after slot `i` is marked free, its contents kept.
pub open spec fn freed(slots: Seq<Slot>, i: int) -> Seq<Slot> {
    slots.update(i, Slot { active: false, routine: slots[i].routine, arg: slots[i].arg })
}

/// What a thread started through slot `i` runs: its routine and argument.
pub open spec fn start_of(slots: Seq<Slot>, i: int) -> (usize, usize) {
    (slots[i].routine, slots[i].arg)
}

/// `MAX_THREADS` start slots.
pub struct SlotTable {
    slots: [Slot; MAX_THREADS],
}

impl View for SlotTable {
    type V = Seq<Slot>;

    closed spec fn view(&self) -> Seq<Slot> {
        self.slots@
    }
}

/// A slot nobody uses.
pub open spec fn empty_slot() -> Slot {
    Slot { active: false, routine: 0, arg: 0 }
}

impl SlotTable {
    /// `MAX_THREADS` slots, none in use, all zero.
    pub fn new() -> (t: Self)
        ensures
            t@ == Seq::new(MAX_THREADS as nat, |i: int| empty_slot()),
    {
        let t = SlotTable { slots: [Slot { active: false, routine: 0, arg: 0 }; MAX_THREADS] };
        assert(t@ =~= Seq::new(MAX_THREADS as nat, |i: int| empty_slot()));
        t
    }

    /// There are always `MAX_THREADS` slots.
    pub proof fn lemma_len(&self)
        ensures
            self@.len() == MAX_THREADS,
    {
    }

    /// The slot at `i`.
    pub fn get(&self, i: usize) -> (s: Slot)
        requires
            i < MAX_THREADS,
        ensures
            s == self@[i as int],
    {
        self.slots[i]
    }

    /// The lowest slot not in use, or `None` when all are in use.
    pub fn find_free(&self) -> (r: Option<usize>)
        ensures
            match r {
                Some(i) => i < MAX_THREADS && !self@[i as int].active && all_active_before(self@, i as int),
                None => all_active_before(self@, MAX_THREADS as int),
            },
    {
        let mut i: usize = 0;
        while i < MAX_THREADS
            invariant
                i <= MAX_THREADS,
                self@.len() == MAX_THREADS,
                all_active_before(self@, i as int),
            decreases MAX_THREADS - i,
        {
            if !self.slots[i].active {
                return Some(i);
            }
            i = i + 1;
        }
        None
    }

    /// Puts `routine` and `arg` into slot `i` and marks it in use.
    pub fn claim(&mut self, i: usize, routine: usize, arg: usize)
        requires
            i < MAX_THREADS,
        ensures
            final(self)@ == claimed(old(self)@, i as int, routine, arg),
    {
        self.slots[i] = Slot { active: true, routine, arg };
    }

    /// Marks slot `i` free again, leaving its routine and argument as
    /// they are (the thread creation that claimed it did not happen).
    pub fn release(&mut self, i: usize)
        requires
            i < MAX_THREADS,
        ensures
            final(self)@ == freed(old(self)@, i as int),
    {
        let s = self.slots[i];
        self.slots[i] = Slot { active: false, routine: s.routine, arg: s.arg };
    }

    /// What a new thread does with its slot `i`: takes the routine and the
    /// argument parked there and marks the slot free.
    pub fn take_start(&mut self, i: usize) -> (r: (usize, usize))
        requires
            i < MAX_THREADS,
        ensures
            r == start_of(old(self)@, i as int),
            final(self)@ == freed(old(self)@, i as int),
    {
        let s = self.slots[i];
        self.slots[i] = Slot { active: false, routine: s.routine, arg: s.arg };
        (s.routine, s.arg)
    }
}

/// A thread started through a slot runs exactly the routine and argument
/// that were parked there, after which the slot is free and every other
/// slot is as it was before the slot was claimed.
pub proof fn lemma_claim_then_start(slots: Seq<Slot>, i: int, routine: usize, arg: usize)
    requires
        0 <= i < slots.len(),
    ensures
        start_of(claimed(slots, i, routine, arg), i) == (routine, arg),
        !freed(claimed(slots, i, routine, arg), i)[i].active,
        forall|j: int| 0 <= j < slots.len() && j != i ==> #[trigger] freed(claimed(slots, i, routine, arg), i)[j] == slots[j],
{
}

/// A claimed slot is not handed out again while it is in use: the lowest
/// free slot is never one that is in use.
pub proof fn lemma_claimed_not_free(slots: Seq<Slot>, i: int, routine: usize, arg: usize, k: int)
    requires
        0 <= i < slots.len(),
        0 <= k < slots.len(),
        !claimed(slots, i, routine, arg)[k].active,
    ensures
        k != i,
{
}

} // verus!
