//! Windowed rate limiter for outbound requests.
//!
//! Permits are granted against a fixed-length rolling window: at every
//! window boundary the available count is reset to the capacity (a
//! bucket refill at a fixed tick, not a continuous token bucket), and
//! each granted request consumes one permit. A caller that cannot be
//! granted a permit is told the time of the next window boundary and
//! asks again then; the limiter itself never blocks and never fails.
//!
//! Time is a plain `u64` tick count supplied by the caller, so the
//! limiter is deterministic and the clock can be substituted in tests.

use vstd::prelude::*;

verus! {

/// Answer to a permit request: either the permit is granted now, or the
/// caller should wait until the given instant (the next window
/// boundary) and ask again.
#[derive(Clone, Copy, Debug, PartialEq, Eq, Structural)]
pub enum Grant {
    Granted,
    WaitUntil(u64),
}

/// Token state for one rolling window. The invariant `wf` keeps
/// `available` between 0 and `capacity` at all times; `available` is
/// reset to `capacity` at each window boundary and never exceeds it.
pub struct RateLimiter {
    /// Permits granted per window.
    pub capacity: u64,
    /// Window length in ticks.
    pub window: u64,
    /// Permits still available in the current window.
    pub available: u64,
    /// Start of the current window.
    pub window_start: u64,
}

impl RateLimiter {
    /// Structural invariant: established by `new`, preserved by every
    /// transition.
    pub open spec fn wf(self) -> bool {
        &&& self.capacity >= 1
        &&& self.window >= 1
        &&& self.available <= self.capacity
    }

    /// A tick that falls inside the current window.
    pub open spec fn in_window(self, t: u64) -> bool {
        self.window_start <= t < self.window_start + self.window
    }

    pub fn new(capacity: u64, window: u64, start: u64) -> (s: Self)
        requires
            capacity >= 1,
            window >= 1,
        ensures
            s.wf(),
            s == (RateLimiter { capacity, window, available: capacity, window_start: start }),
    {
        RateLimiter { capacity, window, available: capacity, window_start: start }
    }

    /// One permit request at tick `now`, as a mathematical transition:
    /// the new state and the answer.
    pub open spec fn step(self, now: u64) -> (RateLimiter, Grant)
        recommends
            self.wf(),
            self.window_start <= now,
    {
        let s = self.rolled(now);
        if s.available > 0 {
            (
                RateLimiter { available: (s.available - 1) as u64, ..s },
                Grant::Granted,
            )
        } else {
            (s, Grant::WaitUntil((s.window_start + s.window) as u64))
        }
    }

    /// The state after advancing the window to the latest boundary at
    /// or before `now`, refilling if at least one boundary was crossed.
    pub open spec fn rolled(self, now: u64) -> RateLimiter
        recommends
            self.wf(),
            self.window_start <= now,
    {
        let k = (now - self.window_start) / (self.window as int);
        if k > 0 {
            RateLimiter {
                available: self.capacity,
                window_start: (self.window_start + k * self.window) as u64,
                ..self
            }
        } else {
            self
        }
    }

    /// Request one permit at tick `now`. Either the permit is granted
    /// and one token is consumed, or the caller is told to wait for the
    /// next window boundary; the token count never goes below zero and
    /// never exceeds the capacity.
    pub fn request(&mut self, now: u64) -> (g: Grant)
        requires
            old(self).wf(),
            old(self).window_start <= now,
            now + old(self).window <= u64::MAX,
        ensures
            final(self).wf(),
            (*final(self), g) == old(self).step(now),
            final(self).capacity == old(self).capacity,
            final(self).window == old(self).window,
            final(self).window_start <= now,
    {
        let elapsed = now - self.window_start;
        let k = elapsed / self.window;
        proof {
            vstd::arithmetic::div_mod::lemma_fundamental_div_mod(
                elapsed as int,
                self.window as int,
            );
            vstd::arithmetic::div_mod::lemma_mod_bound(elapsed as int, self.window as int);
            assert(k * self.window == self.window * k) by (nonlinear_arith);
            assert(k * self.window <= elapsed);
        }
        if k > 0 {
            self.window_start = self.window_start + k * self.window;
            self.available = self.capacity;
        }
        if self.available > 0 {
            self.available = self.available - 1;
            Grant::Granted
        } else {
            Grant::WaitUntil(self.window_start + self.window)
        }
    }

    /// A whole run of permit requests at the given ticks: the final
    /// state and the answer to each request.
    pub open spec fn run(self, times: Seq<u64>) -> (RateLimiter, Seq<Grant>)
        decreases times.len(),
    {
        if times.len() == 0 {
            (self, Seq::<Grant>::empty())
        } else {
            let first = self.step(times[0]);
            let rest = first.0.run(times.drop_first());
            (rest.0, seq![first.1] + rest.1)
        }
    }

    /// Issue one request per tick in `times` (nondecreasing), returning
    /// the answers in order.
    pub fn run_requests(&mut self, times: &Vec<u64>) -> (grants: Vec<Grant>)
        requires
            old(self).wf(),
            forall|i: int|
                0 <= i < times@.len() ==> old(self).window_start <= #[trigger] times@[i]
                    && times@[i] + old(self).window <= u64::MAX,
            forall|i: int| 0 <= i < times@.len() - 1 ==> #[trigger] times@[i] <= times@[i + 1],
        ensures
            final(self).wf(),
            (*final(self), grants@) == old(self).run(times@),
    {
        let ghost s0 = *self;
        let mut grants: Vec<Grant> = Vec::new();
        let mut i: usize = 0;
        while i < times.len()
            invariant
                i <= times@.len(),
                self.wf(),
                self.capacity == s0.capacity,
                self.window == s0.window,
                grants@.len() == i,
                (*self, grants@) == s0.run(times@.take(i as int)),
                forall|j: int|
                    0 <= j < times@.len() ==> s0.window_start <= #[trigger] times@[j] && times@[j]
                        + s0.window <= u64::MAX,
                forall|j: int| 0 <= j < times@.len() - 1 ==> #[trigger] times@[j] <= times@[j + 1],
                i < times@.len() ==> self.window_start <= times@[i as int],
            decreases times@.len() - i,
        {
            proof {
                assert(times@.take(0) =~= Seq::<u64>::empty());
                lemma_run_snoc(s0, times@, i as int);
            }
            let g = self.request(times[i]);
            grants.push(g);
            i = i + 1;
        }
        proof {
            assert(times@.take(times@.len() as int) =~= times@);
        }
        grants
    }
}

/// Extending a run by one more request appends one more answer.
proof fn lemma_run_snoc(s: RateLimiter, times: Seq<u64>, i: int)
    requires
        0 <= i < times.len(),
    ensures
        s.run(times.take(i + 1)).0 == s.run(times.take(i)).0.step(times[i]).0,
        s.run(times.take(i + 1)).1 == s.run(times.take(i)).1.push(
            s.run(times.take(i)).0.step(times[i]).1,
        ),
    decreases i,
{
    reveal_with_fuel(RateLimiter::run, 3);
    if i == 0 {
        assert(times.take(1) =~= seq![times[0]]);
        assert(times.take(1).drop_first() =~= Seq::<u64>::empty());
        assert(times.take(0) =~= Seq::<u64>::empty());
        assert(seq![s.step(times[0]).1] + Seq::<Grant>::empty() =~= Seq::<Grant>::empty().push(
            s.step(times[0]).1,
        ));
    } else {
        let s1 = s.step(times[0]).0;
        let tail = times.drop_first();
        let a = times.take(i + 1);
        let b = times.take(i);
        assert(a[0] == times[0]);
        assert(b[0] == times[0]);
        assert(a.drop_first() =~= tail.take(i));
        assert(b.drop_first() =~= tail.take(i - 1));
        lemma_run_snoc(s1, tail, i - 1);
        assert(tail.take(i - 1 + 1) == tail.take(i));
        assert(tail[i - 1] == times[i]);
        assert(s.run(a).0 == s1.run(tail.take(i)).0);
        assert(s.run(b).0 == s1.run(tail.take(i - 1)).0);
        assert(s.run(a).1 == seq![s.step(times[0]).1] + s1.run(tail.take(i)).1);
        assert(s.run(b).1 == seq![s.step(times[0]).1] + s1.run(tail.take(i - 1)).1);
        assert(seq![s.step(times[0]).1] + s1.run(tail.take(i - 1)).1.push(
            s1.run(tail.take(i - 1)).0.step(times[i]).1,
        ) =~= (seq![s.step(times[0]).1] + s1.run(tail.take(i - 1)).1).push(
            s1.run(tail.take(i - 1)).0.step(times[i]).1,
        ));
    }
}

/// Requests that all fall inside the current window: the first
/// `available` of them are granted, every later one is told to wait for
/// the next boundary, and the token count ends at
/// `available - min(len, available)` - it never goes below zero.
pub proof fn lemma_in_window_run(s: RateLimiter, times: Seq<u64>)
    requires
        s.wf(),
        forall|i: int| 0 <= i < times.len() ==> s.in_window(#[trigger] times[i]),
    ensures
        s.run(times).0.window_start == s.window_start,
        s.run(times).0.capacity == s.capacity,
        s.run(times).0.window == s.window,
        s.run(times).0.available == if times.len() <= s.available {
            s.available - times.len()
        } else {
            0
        },
        s.run(times).1.len() == times.len(),
        forall|i: int| 0 <= i < times.len() && i < s.available ==> s.run(times).1[i] == Grant::Granted,
        forall|i: int|
            s.available <= i < times.len() ==> s.run(times).1[i] == Grant::WaitUntil(
                (s.window_start + s.window) as u64,
            ),
    decreases times.len(),
{
    if times.len() == 0 {
    } else {
        let t0 = times[0];
        assert(s.in_window(t0));
        vstd::arithmetic::div_mod::lemma_basic_div((t0 - s.window_start) as int, s.window as int);
        assert(s.rolled(t0) == s);
        let s1 = s.step(t0).0;
        let tail = times.drop_first();
        assert(forall|i: int| 0 <= i < tail.len() ==> tail[i] == times[i + 1]);
        assert(s1.window_start == s.window_start && s1.capacity == s.capacity && s1.window
            == s.window);
        assert(forall|i: int| 0 <= i < tail.len() ==> s1.in_window(#[trigger] tail[i]));
        lemma_in_window_run(s1, tail);
        assert(forall|i: int|
            1 <= i < times.len() ==> s.run(times).1[i] == s1.run(tail).1[i - 1]);
    }
}

/// When no more permits are requested than the capacity within one
/// window, no request waits: every answer is an immediate grant.
pub proof fn lemma_within_capacity_no_waiting(s: RateLimiter, times: Seq<u64>)
    requires
        s.wf(),
        s.available == s.capacity,
        times.len() <= s.capacity,
        forall|i: int| 0 <= i < times.len() ==> s.in_window(#[trigger] times[i]),
    ensures
        s.run(times).1.len() == times.len(),
        forall|i: int| 0 <= i < times.len() ==> s.run(times).1[i] == Grant::Granted,
{
    lemma_in_window_run(s, times);
}

/// With more requests than the capacity within one window, the
/// (capacity+1)-th request must wait until the next window boundary,
/// while the first `capacity` are granted; the token count never goes
/// negative (it ends at zero).
pub proof fn lemma_over_capacity_waits(s: RateLimiter, times: Seq<u64>)
    requires
        s.wf(),
        s.available == s.capacity,
        times.len() > s.capacity,
        forall|i: int| 0 <= i < times.len() ==> s.in_window(#[trigger] times[i]),
    ensures
        s.run(times).1.len() == times.len(),
        forall|i: int| 0 <= i < s.capacity ==> s.run(times).1[i] == Grant::Granted,
        s.run(times).1[s.capacity as int] == Grant::WaitUntil(
            (s.window_start + s.window) as u64,
        ),
        s.run(times).0.available == 0,
{
    lemma_in_window_run(s, times);
}

} // verus!
