use vstd::prelude::*;

verus! {

/// Count of slots currently inside an in-progress backend conversion.
///
/// The balancer increments it immediately before a conversion call and
/// decrements it immediately after, whether the call succeeded or failed,
/// so outside those two points it equals the number of in-flight
/// conversions.  The runtime that shares one counter between callers is
/// responsible for making the two updates atomic; the arithmetic itself
/// and its bounds are established here.
///
/// The busy probe is deliberately not counted: a pool whose backends are
/// all occupied by outside work can show a count of zero, which is
/// exactly what steers a waiting caller towards the poll-sleep, since no
/// wake signal would ever announce an outside backend turning free.
#[derive(Clone, Copy, Debug, PartialEq, Eq, Structural)]
pub struct ActiveCounter {
    count: usize,
}

impl ActiveCounter {
    /// The counted number of in-flight conversions.
    pub closed spec fn spec_count(self) -> nat {
        self.count as nat
    }

    /// A fresh counter: nothing is in flight.
    pub fn new() -> (c: Self)
        ensures
            c.spec_count() == 0,
    {
        ActiveCounter { count: 0 }
    }

    /// Reads the current count.
    pub fn get(&self) -> (n: usize)
        ensures
            n == self.spec_count(),
    {
        self.count
    }

    /// Notes that one more conversion is entering its backend call.
    pub fn increment(&mut self)
        requires
            old(self).spec_count() < usize::MAX,
        ensures
            final(self).spec_count() == old(self).spec_count() + 1,
    {
        self.count = self.count + 1;
    }

    /// Notes that one conversion has left its backend call.
    pub fn decrement(&mut self)
        requires
            old(self).spec_count() > 0,
        ensures
            final(self).spec_count() == old(self).spec_count() - 1,
    {
        self.count = self.count - 1;
    }
}

/// A completed conversion leaves the counter where it found it: the
/// increment taken before the backend call and the decrement taken after
/// it cancel, whatever the call returned.
pub proof fn lemma_counter_round_trip(before: ActiveCounter, during: ActiveCounter, after: ActiveCounter)
    requires
        before.spec_count() < usize::MAX,
        during.spec_count() == before.spec_count() + 1,
        after.spec_count() == during.spec_count() - 1,
    ensures
        after.spec_count() == before.spec_count(),
{
}

} // verus!
