//! Independent per-source scheduling.
//!
//! Each source has its own repeating timer: a fetch cycle runs, and the
//! next one starts a full interval after the previous one finished.
//! Timers of different sources are independent values; a slow fetch on
//! one source never delays another source's timer. Time is a plain
//! `u64` tick count supplied by the caller.

use vstd::prelude::*;

verus! {

/// The repeating timer of one source.
pub struct ScheduleEntry {
    /// Ticks between the end of one cycle and the start of the next.
    pub interval: u64,
    /// When the next cycle is due.
    pub next_due: u64,
}

impl ScheduleEntry {
    pub open spec fn wf(self) -> bool {
        self.interval >= 1
    }

    pub fn new(interval: u64, first_due: u64) -> (e: Self)
        requires
            interval >= 1,
        ensures
            e.wf(),
            e == (ScheduleEntry { interval, next_due: first_due }),
    {
        ScheduleEntry { interval, next_due: first_due }
    }

    /// Whether a cycle should start now. A due tick is deferred, not
    /// dropped, while the previous cycle still runs.
    pub fn is_due(&self, now: u64) -> (b: bool)
        ensures
            b == (now >= self.next_due),
    {
        now >= self.next_due
    }

    /// Record the end of a cycle: the next one is due one full interval
    /// after this one finished.
    pub fn cycle_finished(&mut self, finished_at: u64)
        requires
            finished_at + old(self).interval <= u64::MAX,
        ensures
            final(self).interval == old(self).interval,
            final(self).next_due == finished_at + old(self).interval,
    {
        self.next_due = finished_at + self.interval;
    }
}

/// How many fetch cycles start up to and including tick `horizon`, when
/// the first cycle starts at tick `t`, cycle number `j` runs for
/// `durations[j]` ticks, and each next cycle starts one interval after
/// the previous one finished. Cycles beyond the given durations are not
/// counted, so callers supply at least as many durations as cycles can
/// fit.
pub open spec fn cycles_from(t: int, durations: Seq<u64>, interval: int, horizon: int) -> nat
    decreases durations.len(),
{
    if t > horizon || durations.len() == 0 {
        0
    } else {
        1 + cycles_from(t + durations[0] + interval, durations.drop_first(), interval, horizon)
    }
}

/// Count the fetch cycles that start within `horizon` ticks, starting
/// at tick 0, for the given cycle durations.
pub fn count_cycles(durations: &Vec<u64>, interval: u64, horizon: u64) -> (n: usize)
    requires
        1 <= interval <= 0x1000_0000,
        horizon <= 0x1000_0000,
        forall|i: int| 0 <= i < durations@.len() ==> #[trigger] durations@[i] <= 0x1000_0000,
    ensures
        n == cycles_from(0, durations@, interval as int, horizon as int),
{
    let mut t: u64 = 0;
    let mut i: usize = 0;
    let mut n: usize = 0;
    proof {
        assert(durations@.skip(0) =~= durations@);
    }
    while i < durations.len() && t <= horizon
        invariant
            i <= durations@.len(),
            n == i,
            t <= 0x3000_0000,
            interval <= 0x1000_0000,
            horizon <= 0x1000_0000,
            forall|j: int| 0 <= j < durations@.len() ==> #[trigger] durations@[j] <= 0x1000_0000,
            cycles_from(0, durations@, interval as int, horizon as int) == n + cycles_from(
                t as int,
                durations@.skip(i as int),
                interval as int,
                horizon as int,
            ),
        decreases durations@.len() - i,
    {
        proof {
            assert(durations@.skip(i as int)[0] == durations@[i as int]);
            assert(durations@.skip(i as int).drop_first() =~= durations@.skip(i + 1));
        }
        let d = durations[i];
        t = t + d + interval;
        i = i + 1;
        n = n + 1;
    }
    proof {
        if i >= durations@.len() {
            assert(durations@.skip(i as int).len() == 0);
        }
    }
    n
}

/// No more than `k` cycles can start within the horizon when even `k`
/// back-to-back intervals alone already pass it: a source's timer never
/// fires faster than its interval, whatever the fetch durations.
pub proof fn lemma_cycles_upper(t: int, durations: Seq<u64>, interval: int, horizon: int, k: nat)
    requires
        interval >= 1,
        t >= 0,
        t + k * interval > horizon,
    ensures
        cycles_from(t, durations, interval, horizon) <= k,
    decreases durations.len(),
{
    if t > horizon || durations.len() == 0 {
    } else {
        assert(k >= 1) by (nonlinear_arith)
            requires
                t <= horizon,
                t + k * interval > horizon,
                t >= 0,
                interval >= 1,
        ;
        assert((t + durations[0] + interval) + (k - 1) * interval > horizon) by (nonlinear_arith)
            requires
                t + k * interval > horizon,
                durations[0] >= 0,
                k >= 1,
        ;
        lemma_cycles_upper(
            t + durations[0] + interval,
            durations.drop_first(),
            interval,
            horizon,
            (k - 1) as nat,
        );
    }
}

/// A source scheduled at a fixed interval and observed for three
/// intervals runs at least 2 and at most 4 fetch cycles, provided no
/// single cycle overruns its interval (each duration is at most one
/// interval long). The lower bound uses the first two cycles; the upper
/// bound holds because a fifth cycle cannot start before four full
/// intervals have passed.
pub proof fn lemma_three_interval_cycle_bounds(durations: Seq<u64>, interval: int)
    requires
        interval >= 1,
        durations.len() >= 4,
        forall|i: int| 0 <= i < durations.len() ==> #[trigger] durations[i] <= interval,
    ensures
        2 <= cycles_from(0, durations, interval, 3 * interval) <= 4,
{
    let horizon = 3 * interval;
    lemma_cycles_upper(0, durations, interval, horizon, 4);
    let t1 = durations[0] + interval;
    assert(t1 <= 2 * interval);
    assert(durations.drop_first()[0] == durations[1]);
    assert(cycles_from(t1, durations.drop_first(), interval, horizon) >= 1);
}

} // verus!
