//! Per-source single-flight exclusion.
//!
//! Each source owns one guard; a fetch cycle acquires it before the
//! first attempt and releases it when the cycle ends, whatever the
//! outcome. A second caller for the same source - an overlapping
//! scheduler tick or a manual refresh - is refused while the guard is
//! held and waits for the release, then runs its own fresh fetch: this
//! is exclusion, not coalescing of results. Guards of different sources
//! are independent values and never interact.

use vstd::prelude::*;

verus! {

/// Mutual-exclusion state for one source.
pub struct SingleFlight {
    /// Whether a fetch for this source is currently in flight.
    pub held: bool,
}

impl SingleFlight {
    pub fn new() -> (g: Self)
        ensures
            !g.held,
    {
        SingleFlight { held: false }
    }

    /// Take the guard if it is free. The guard is held afterwards in
    /// either case; the caller may start a fetch only when `ok` is
    /// true, and must call `release` exactly when it got `ok`.
    pub fn try_acquire(&mut self) -> (ok: bool)
        ensures
            ok == !old(self).held,
            final(self).held,
    {
        let ok = !self.held;
        self.held = true;
        ok
    }

    /// Give the guard back at the end of a fetch cycle.
    pub fn release(&mut self)
        requires
            old(self).held,
        ensures
            !final(self).held,
    {
        self.held = false;
    }
}

/// One step in the life of one source's guard.
#[derive(Clone, Copy, Debug, PartialEq, Eq, Structural)]
pub enum GuardEvent {
    Acquire,
    Release,
}

/// Net number of holders after a sequence of guard events.
pub open spec fn holders(t: Seq<GuardEvent>) -> int
    decreases t.len(),
{
    if t.len() == 0 {
        0
    } else {
        holders(t.drop_last()) + if t.last() == GuardEvent::Acquire {
            1int
        } else {
            -1int
        }
    }
}

/// A trace the guard can actually produce: an acquire happens only when
/// nobody holds the guard, a release only when somebody does.
pub open spec fn valid_trace(t: Seq<GuardEvent>) -> bool {
    forall|i: int|
        0 <= i < t.len() ==> ((t[i] == GuardEvent::Acquire ==> holders(t.take(i)) == 0) && (t[i]
            == GuardEvent::Release ==> holders(t.take(i)) == 1))
}

proof fn lemma_holders_bounded(t: Seq<GuardEvent>, i: int)
    requires
        valid_trace(t),
        0 <= i <= t.len(),
    ensures
        0 <= holders(t.take(i)) <= 1,
    decreases i,
{
    if i > 0 {
        lemma_holders_bounded(t, i - 1);
        assert(t.take(i).drop_last() =~= t.take(i - 1));
        assert(t.take(i).last() == t[i - 1]);
    }
}

/// The guard never has two concurrent holders: at every point of any
/// trace the guard can produce, the number of holders is zero or one.
/// In particular two refresh calls for one source occupy two disjoint
/// held-windows - their fetch cycles run sequentially, never
/// overlapping.
pub proof fn lemma_never_two_holders(t: Seq<GuardEvent>)
    requires
        valid_trace(t),
    ensures
        forall|i: int| 0 <= i <= t.len() ==> 0 <= holders(#[trigger] t.take(i)) <= 1,
{
    assert forall|i: int| 0 <= i <= t.len() implies 0 <= holders(#[trigger] t.take(i)) <= 1 by {
        lemma_holders_bounded(t, i);
    }
}

/// Replay a sequence of events against a fresh guard and report whether
/// the guard could have produced it.
pub fn check_trace(events: &Vec<GuardEvent>) -> (ok: bool)
    ensures
        ok == valid_trace(events@),
{
    let mut held = false;
    let mut i: usize = 0;
    while i < events.len()
        invariant
            i <= events@.len(),
            holders(events@.take(i as int)) == if held {
                1int
            } else {
                0int
            },
            forall|j: int|
                0 <= j < i ==> ((events@[j] == GuardEvent::Acquire ==> holders(
                    events@.take(j),
                ) == 0) && (events@[j] == GuardEvent::Release ==> holders(events@.take(j)) == 1)),
        decreases events@.len() - i,
    {
        proof {
            assert(events@.take(i + 1).drop_last() =~= events@.take(i as int));
            assert(events@.take(i + 1).last() == events@[i as int]);
        }
        match events[i] {
            GuardEvent::Acquire => {
                if held {
                    return false;
                }
                held = true;
            },
            GuardEvent::Release => {
                if !held {
                    return false;
                }
                held = false;
            },
        }
        i = i + 1;
    }
    true
}

} // verus!
