//! The table of thread ids that the freeze broadcast reaches.
use vstd::prelude::*;
use crate::MAX_THREADS;

verus! {

/// Whether a registered id receives the broadcast sent by thread `my_tid`:
/// a live id (positive) that is not the sender's own.
pub open spec fn is_broadcast_target(tid: i32, my_tid: i32) -> bool {
    tid > 0 && tid != my_tid
}

/// What the broadcast does with entry `i` of the registered ids `ids`,
/// seen from thread `my_tid`: the id to signal, or nothing.
pub open spec fn target_at(ids: Seq<i32>, i: int, my_tid: i32) -> Option<i32> {
    if 0 <= i < ids.len() && is_broadcast_target(ids[i], my_tid) {
        Some(ids[i])
    } else {
        None
    }
}

/// The ids the broadcast sent by thread `my_tid` signals, in registration
/// order, each registered entry at most once.
pub open spec fn broadcast_targets_spec(ids: Seq<i32>, my_tid: i32) -> Seq<i32> {
    ids.filter(|t: i32| is_broadcast_target(t, my_tid))
}

/// The registered ids after thread `tid` registers: appended, unless
/// `MAX_THREADS` ids are already there.
pub open spec fn registered_after(ids: Seq<i32>, tid: i32) -> Seq<i32> {
    if ids.len() < MAX_THREADS {
        ids.push(tid)
    } else {
        ids
    }
}

/// Registering only appends: the registry stays within `MAX_THREADS` ids,
/// grows by at most one, and every id already there keeps its place.
pub proof fn lemma_register_only_appends(ids: Seq<i32>, tid: i32)
    requires
        ids.len() <= MAX_THREADS,
    ensures
        registered_after(ids, tid).len() <= MAX_THREADS,
        registered_after(ids, tid).len() <= ids.len() + 1,
        forall|i: int| 0 <= i < ids.len() ==> #[trigger] registered_after(ids, tid)[i] == ids[i],
{
}

/// Registering into a registry that is not full appends exactly the given
/// id as the last entry; a live id other than the sender's then receives
/// the broadcast, at that last position.
pub proof fn lemma_register_appends_exact_id(ids: Seq<i32>, tid: i32, my_tid: i32)
    requires
        ids.len() < MAX_THREADS,
    ensures
        registered_after(ids, tid) == ids.push(tid),
        registered_after(ids, tid).len() == ids.len() + 1,
        registered_after(ids, tid)[ids.len() as int] == tid,
        tid > 0 && tid != my_tid ==> target_at(registered_after(ids, tid), ids.len() as int, my_tid) == Some(tid),
        tid > 0 && tid != my_tid ==> broadcast_targets_spec(registered_after(ids, tid), my_tid).contains(tid),
{
    let after = registered_after(ids, tid);
    lemma_broadcast_list(after, my_tid);
    assert(after[ids.len() as int] == tid);
}

/// Thread ids in the order in which the threads registered, at most
/// `MAX_THREADS` of them. Slot 0 holds the main thread once the library
/// has initialised.
pub struct ThreadRegistry {
    tids: [i32; MAX_THREADS],
    count: usize,
}

impl View for ThreadRegistry {
    type V = Seq<i32>;

    /// The registered ids, oldest first.
    closed spec fn view(&self) -> Seq<i32> {
        self.tids@.take(self.count as int)
    }
}

impl ThreadRegistry {
    #[verifier::type_invariant]
    spec fn inv(self) -> bool {
        self.count <= MAX_THREADS
    }

    /// An empty registry.
    pub fn new() -> (r: Self)
        ensures
            r@ == Seq::<i32>::empty(),
    {
        let r = ThreadRegistry { tids: [0i32; MAX_THREADS], count: 0 };
        assert(r@ =~= Seq::<i32>::empty());
        r
    }

    /// Number of registered ids.
    pub fn count(&self) -> (n: usize)
        ensures
            n == self@.len(),
            n <= MAX_THREADS,
    {
        proof {
            use_type_invariant(self);
        }
        self.count
    }

    /// The `i`-th registered id.
    pub fn tid_at(&self, i: usize) -> (t: i32)
        requires
            i < self@.len(),
        ensures
            t == self@[i as int],
    {
        proof {
            use_type_invariant(self);
        }
        self.tids[i]
    }

    /// Forgets every registered id but the main thread's, which becomes the
    /// only entry (done once, when the library starts).
    pub fn reset_with_main(&mut self, main_tid: i32)
        ensures
            final(self)@ == seq![main_tid],
    {
        proof {
            use_type_invariant(&*self);
        }
        self.tids[0] = main_tid;
        self.count = 1;
        assert(self@ =~= seq![main_tid]);
    }

    /// Records the id of a thread that has just started. Returns whether it
    /// was recorded: it is, unless `MAX_THREADS` ids are already there, in
    /// which case nothing changes.
    pub fn register(&mut self, tid: i32) -> (recorded: bool)
        ensures
            recorded == (old(self)@.len() < MAX_THREADS),
            final(self)@ == registered_after(old(self)@, tid),
    {
        proof {
            use_type_invariant(&*self);
        }
        if self.count < MAX_THREADS {
            let ghost before = self@;
            let c = self.count;
            self.tids[c] = tid;
            self.count = c + 1;
            assert(self@ =~= before.push(tid));
            true
        } else {
            false
        }
    }

    /// The ids the broadcast sent by thread `my_tid` signals: every
    /// registered id that is live and not the sender's own, in the order in
    /// which the threads registered.
    pub fn broadcast_targets(&self, my_tid: i32) -> (v: Vec<i32>)
        ensures
            v@ == broadcast_targets_spec(self@, my_tid),
    {
        proof {
            use_type_invariant(self);
        }
        let ghost pred = |t: i32| is_broadcast_target(t, my_tid);
        let mut v: Vec<i32> = Vec::new();
        let mut i: usize = 0;
        assert(self@.take(0) =~= Seq::<i32>::empty());
        proof {
            reveal(Seq::filter);
        }
        while i < self.count
            invariant
                i <= self.count <= MAX_THREADS,
                self@ == self.tids@.take(self.count as int),
                v@ == self@.take(i as int).filter(pred),
                pred == (|t: i32| is_broadcast_target(t, my_tid)),
            decreases self.count - i,
        {
            let tid = self.tids[i];
            proof {
                assert(self@.take(i + 1) =~= self@.take(i as int).push(tid));
                self@.take(i as int).lemma_filter_push(tid, pred);
            }
            if tid > 0 && tid != my_tid {
                v.push(tid);
            }
            i = i + 1;
        }
        assert(self@.take(i as int) =~= self@);
        v
    }

    /// What the broadcast sent by thread `my_tid` does with entry `i`:
    /// the id to signal if entry `i` is registered, live and not the
    /// sender's own, else nothing.
    pub fn broadcast_target(&self, i: usize, my_tid: i32) -> (t: Option<i32>)
        ensures
            t == target_at(self@, i as int, my_tid),
    {
        proof {
            use_type_invariant(self);
        }
        if i < self.count {
            let tid = self.tids[i];
            if tid > 0 && tid != my_tid {
                Some(tid)
            } else {
                None
            }
        } else {
            None
        }
    }
}

/// The broadcast never signals the sender itself nor a non-positive id,
/// and it signals every other live registered thread, each once, at the
/// position where it registered.
pub proof fn lemma_broadcast_reaches_all_others(ids: Seq<i32>, my_tid: i32)
    ensures
        forall|i: int| #[trigger] target_at(ids, i, my_tid) matches Some(t) ==> t != my_tid && t > 0 && t == ids[i],
        forall|i: int|
            0 <= i < ids.len() && ids[i] > 0 && ids[i] != my_tid ==> #[trigger] target_at(ids, i, my_tid)
                == Some(ids[i]),
{
}

/// The broadcast list holds only live ids other than the sender's, each
/// taken from the registry, and holds every such registered id; it is no
/// longer than the registry.
pub proof fn lemma_broadcast_list(ids: Seq<i32>, my_tid: i32)
    ensures
        broadcast_targets_spec(ids, my_tid).len() <= ids.len(),
        forall|k: int|
            0 <= k < broadcast_targets_spec(ids, my_tid).len() ==> {
                let t = #[trigger] broadcast_targets_spec(ids, my_tid)[k];
                &&& t > 0
                &&& t != my_tid
                &&& ids.contains(t)
            },
        forall|i: int|
            0 <= i < ids.len() && ids[i] > 0 && ids[i] != my_tid ==> broadcast_targets_spec(ids, my_tid).contains(
                #[trigger] ids[i],
            ),
{
    let pred = |t: i32| is_broadcast_target(t, my_tid);
    ids.lemma_filter_len(pred);
    assert forall|k: int| 0 <= k < ids.filter(pred).len() implies {
        let t = #[trigger] ids.filter(pred)[k];
        &&& t > 0
        &&& t != my_tid
        &&& ids.contains(t)
    } by {
        ids.lemma_filter_pred(pred, k);
        assert(ids.filter(pred).contains(ids.filter(pred)[k]));
        ids.lemma_filter_contains_rev(pred, ids.filter(pred)[k]);
    }
    assert forall|i: int| 0 <= i < ids.len() && ids[i] > 0 && ids[i] != my_tid implies ids.filter(pred).contains(
        #[trigger] ids[i],
    ) by {
        ids.lemma_filter_contains(pred, i);
    }
}

} // verus!
