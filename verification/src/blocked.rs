use vstd::prelude::*;

verus! {

/// What a bounded lock attempt on one slot revealed to the
/// externally-blocked diagnostic.
#[derive(Clone, Copy, Debug, PartialEq, Eq, Structural)]
pub enum BlockedObservation {
    /// The slot's lock could not be taken within the timeout: another
    /// caller is working with it, so the pool is not dead.
    Contended,
    /// The slot was acquired and carries no external-busy mark.
    FoundFree,
    /// The slot was acquired and is marked externally busy.
    FoundBusy,
}

/// All recorded observations found their slot marked externally busy.
pub open spec fn all_found_busy(s: Seq<BlockedObservation>) -> bool {
    forall|i: int| 0 <= i < s.len() ==> s[i] is FoundBusy
}

/// One pass of the externally-blocked diagnostic over the pool.
///
/// Slots are examined in pool order, each through a lock attempt bounded
/// by a short timeout.  The verdict becomes `false` the moment a slot is
/// contended or found free of the busy mark, and `true` only once every
/// slot has been acquired and found marked busy.  The pass never writes a
/// slot's busy state.
pub struct BlockedProbe {
    /// Number of slots in the pool under examination.
    pub pool_len: usize,
    /// How many slots have been examined so far.
    pub examined: usize,
    /// The outcome, once it is decided.
    pub verdict: Option<bool>,
    /// The observations recorded so far, in pool order.
    pub observed: Ghost<Seq<BlockedObservation>>,
}

impl BlockedProbe {
    /// Internal consistency of a pass: the verdict is still open only
    /// while every slot seen so far was marked busy and slots remain, it
    /// is `true` only after a full pass of busy marks, and it is `false`
    /// only because the latest observation broke such a run.
    pub open spec fn inv(self) -> bool {
        &&& self.examined == self.observed@.len()
        &&& self.examined <= self.pool_len
        &&& match self.verdict {
            Option::None => self.examined < self.pool_len && all_found_busy(self.observed@),
            Option::Some(true) => self.examined == self.pool_len
                && all_found_busy(self.observed@),
            Option::Some(false) => self.observed@.len() > 0
                && !(self.observed@.last() is FoundBusy)
                && all_found_busy(self.observed@.drop_last()),
        }
    }

    /// Starts a pass over a pool of `pool_len` slots.  An empty pool has
    /// no slot that could be free, so its verdict is `true` at once.
    pub fn new(pool_len: usize) -> (p: Self)
        ensures
            p.inv(),
            p.pool_len == pool_len,
            p.observed@ == Seq::<BlockedObservation>::empty(),
            pool_len == 0 ==> p.verdict == Option::<bool>::Some(true),
            pool_len > 0 ==> p.verdict is None,
    {
        BlockedProbe {
            pool_len,
            examined: 0,
            verdict: if pool_len == 0 {
                Option::Some(true)
            } else {
                Option::None
            },
            observed: Ghost(Seq::empty()),
        }
    }

    /// The slot to examine next, or `None` once the verdict is decided.
    pub fn next_slot(&self) -> (r: Option<usize>)
        requires
            self.inv(),
        ensures
            self.verdict is None ==> r == Option::<usize>::Some(self.examined),
            self.verdict is Some ==> r is None,
    {
        match self.verdict {
            Option::None => Option::Some(self.examined),
            Option::Some(_) => Option::None,
        }
    }

    /// Records what the bounded lock attempt on the next slot revealed.
    pub fn observe(&mut self, obs: BlockedObservation)
        requires
            old(self).inv(),
            old(self).verdict is None,
        ensures
            final(self).inv(),
            final(self).pool_len == old(self).pool_len,
            final(self).examined == old(self).examined + 1,
            final(self).observed@ == old(self).observed@.push(obs),
            obs is FoundBusy && old(self).examined + 1 < old(self).pool_len
                ==> final(self).verdict is None,
            obs is FoundBusy && old(self).examined + 1 == old(self).pool_len
                ==> final(self).verdict == Option::<bool>::Some(true),
            !(obs is FoundBusy) ==> final(self).verdict == Option::<bool>::Some(false),
    {
        self.examined = self.examined + 1;
        self.observed = Ghost(self.observed@.push(obs));
        match obs {
            BlockedObservation::FoundBusy => {
                if self.examined == self.pool_len {
                    self.verdict = Option::Some(true);
                }
            },
            BlockedObservation::Contended | BlockedObservation::FoundFree => {
                self.verdict = Option::Some(false);
            },
        }
    }

    /// The decided verdict, or `None` while slots remain to examine.
    pub fn blocked_verdict(&self) -> (r: Option<bool>)
        ensures
            r == self.verdict,
    {
        self.verdict
    }
}

/// A decided verdict is `true` exactly when every slot of the pool was
/// acquired within its timeout and found marked externally busy; it is
/// `false` exactly when some examined slot was contended or free of the
/// mark, and the pass stopped at the first such slot.
pub proof fn lemma_blocked_verdict(p: BlockedProbe)
    requires
        p.inv(),
        p.verdict is Some,
    ensures
        (p.verdict == Option::<bool>::Some(true)) <==> (p.observed@.len() == p.pool_len
            && all_found_busy(p.observed@)),
        (p.verdict == Option::<bool>::Some(false)) ==> (exists|i: int|
            0 <= i < p.observed@.len() && !(p.observed@[i] is FoundBusy)),
{
    if p.verdict == Option::<bool>::Some(false) {
        assert(!(p.observed@[p.observed@.len() - 1] is FoundBusy));
    }
}

} // verus!
