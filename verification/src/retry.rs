//! Bounded-retry policy for upstream HTTP attempts.
//!
//! Every fetch goes through this policy: a 2xx answer succeeds, 429 is
//! retried with exponential backoff, 5xx and transport failures are
//! retried with a fixed delay, and any other status fails immediately.
//! The retry budget is `MAX_RETRIES` additional tries beyond the first
//! call, so an upstream is contacted at most `MAX_RETRIES + 1` times
//! per fetch cycle.

use vstd::prelude::*;

verus! {

/// Terminal classification of a failed fetch cycle.
#[derive(Clone, Copy, Debug, PartialEq, Eq, Structural)]
pub enum ErrorKind {
    /// DNS, connection or timeout failure; retried before surfacing.
    Transport,
    /// HTTP 429 after the retry budget ran out.
    UpstreamRateLimited,
    /// HTTP 5xx after the retry budget ran out.
    UpstreamServerError,
    /// Any other non-success status; never retried.
    UpstreamClientError,
    /// Response body was not the expected JSON.
    Decode,
    /// The storage collaborator rejected a write.
    Storage,
}

/// What one HTTP attempt came back with: a status line, or no response
/// at all.
#[derive(Clone, Copy, Debug, PartialEq, Eq, Structural)]
pub enum AttemptResult {
    Status(u16),
    Transport,
}

/// What the policy asks the caller to do after one attempt.
#[derive(Clone, Copy, Debug, PartialEq, Eq, Structural)]
pub enum RetryDecision {
    Succeed,
    RetryAfter(u64),
    Fail(ErrorKind),
}

/// Additional tries allowed beyond the first call.
pub const MAX_RETRIES: usize = 3;

/// Fixed delay, in seconds, before retrying a 5xx or transport failure.
pub const RETRY_DELAY_SECS: u64 = 2;

/// Exponential backoff for a 429: `2 ^ attempt` seconds.
pub open spec fn backoff_secs(attempt: nat) -> u64
    recommends
        attempt < MAX_RETRIES,
{
    if attempt == 0 {
        1
    } else if attempt == 1 {
        2
    } else if attempt == 2 {
        4
    } else {
        8
    }
}

/// The error kind a status maps to once retries are exhausted or not
/// allowed.
pub open spec fn status_kind(s: u16) -> ErrorKind {
    if s == 429 {
        ErrorKind::UpstreamRateLimited
    } else if 500 <= s <= 599 {
        ErrorKind::UpstreamServerError
    } else {
        ErrorKind::UpstreamClientError
    }
}

/// The policy's decision for the result of attempt number `attempt`
/// (counting from 0).
pub open spec fn decision(attempt: nat, r: AttemptResult) -> RetryDecision {
    match r {
        AttemptResult::Status(s) => if 200 <= s <= 299 {
            RetryDecision::Succeed
        } else if s == 429 && attempt < MAX_RETRIES {
            RetryDecision::RetryAfter(backoff_secs(attempt))
        } else if 500 <= s <= 599 && attempt < MAX_RETRIES {
            RetryDecision::RetryAfter(RETRY_DELAY_SECS)
        } else {
            RetryDecision::Fail(status_kind(s))
        },
        AttemptResult::Transport => if attempt < MAX_RETRIES {
            RetryDecision::RetryAfter(RETRY_DELAY_SECS)
        } else {
            RetryDecision::Fail(ErrorKind::Transport)
        },
    }
}

/// Classify the result of one attempt.
pub fn classify_attempt(attempt: usize, r: &AttemptResult) -> (d: RetryDecision)
    ensures
        d == decision(attempt as nat, *r),
{
    match r {
        AttemptResult::Status(s) => {
            let s = *s;
            if 200 <= s && s <= 299 {
                RetryDecision::Succeed
            } else if s == 429 && attempt < MAX_RETRIES {
                let delay: u64 = if attempt == 0 {
                    1
                } else if attempt == 1 {
                    2
                } else {
                    4
                };
                RetryDecision::RetryAfter(delay)
            } else if 500 <= s && s <= 599 && attempt < MAX_RETRIES {
                RetryDecision::RetryAfter(RETRY_DELAY_SECS)
            } else if s == 429 {
                RetryDecision::Fail(ErrorKind::UpstreamRateLimited)
            } else if 500 <= s && s <= 599 {
                RetryDecision::Fail(ErrorKind::UpstreamServerError)
            } else {
                RetryDecision::Fail(ErrorKind::UpstreamClientError)
            }
        },
        AttemptResult::Transport => {
            if attempt < MAX_RETRIES {
                RetryDecision::RetryAfter(RETRY_DELAY_SECS)
            } else {
                RetryDecision::Fail(ErrorKind::Transport)
            }
        },
    }
}

/// Per-fetch retry bookkeeping: how many attempts have been decided so
/// far. Created at fetch start, discarded when the cycle ends.
pub struct RetryState {
    pub attempt: usize,
}

impl RetryState {
    pub fn new() -> (s: Self)
        ensures
            s.attempt == 0,
    {
        RetryState { attempt: 0 }
    }

    /// Feed the result of the current attempt; on a retry decision the
    /// attempt counter advances, otherwise the cycle is over.
    pub fn on_result(&mut self, r: &AttemptResult) -> (d: RetryDecision)
        requires
            old(self).attempt < usize::MAX,
        ensures
            d == decision(old(self).attempt as nat, *r),
            (d matches RetryDecision::RetryAfter(_)) ==> final(self).attempt == old(self).attempt
                + 1,
            !(d matches RetryDecision::RetryAfter(_)) ==> final(self).attempt == old(
                self,
            ).attempt,
    {
        let d = classify_attempt(self.attempt, r);
        if let RetryDecision::RetryAfter(_) = d {
            self.attempt = self.attempt + 1;
        }
        d
    }
}

/// The whole retry loop over a fixed sequence of attempt results:
/// `rs[i]` is what attempt `attempt + i` would come back with. Returns
/// the delays slept between attempts and either the index of the
/// successful attempt or the terminal error; `None` when `rs` runs out
/// before the policy reaches a terminal decision.
pub open spec fn run_spec(rs: Seq<AttemptResult>, attempt: nat) -> Option<
    (Seq<u64>, Result<nat, ErrorKind>),
>
    decreases rs.len(),
{
    if rs.len() == 0 {
        None
    } else {
        match decision(attempt, rs[0]) {
            RetryDecision::Succeed => Some((Seq::<u64>::empty(), Ok(attempt))),
            RetryDecision::Fail(k) => Some((Seq::<u64>::empty(), Err(k))),
            RetryDecision::RetryAfter(d) => match run_spec(rs.drop_first(), attempt + 1) {
                None => None,
                Some(t) => Some((seq![d] + t.0, t.1)),
            },
        }
    }
}

/// The abstraction of what `run_policy` returns.
pub open spec fn run_view(r: Option<(Vec<u64>, Result<usize, ErrorKind>)>) -> Option<
    (Seq<u64>, Result<nat, ErrorKind>),
> {
    match r {
        None => None,
        Some(p) => Some(
            (
                p.0@,
                match p.1 {
                    Ok(a) => Ok(a as nat),
                    Err(k) => Err(k),
                },
            ),
        ),
    }
}

/// Drive the policy against a mock upstream that would answer attempt
/// `i` with `results[i]`. Returns the delays slept and the outcome.
pub fn run_policy(results: &Vec<AttemptResult>) -> (r: Option<
    (Vec<u64>, Result<usize, ErrorKind>),
>)
    ensures
        run_view(r) == run_spec(results@, 0),
{
    let mut delays: Vec<u64> = Vec::new();
    let mut attempt: usize = 0;
    proof {
        assert(results@.skip(0) =~= results@);
        lemma_prepend_empty(run_spec(results@, 0));
    }
    loop
        invariant
            attempt <= results@.len(),
            delays@.len() == attempt,
            run_spec(results@, 0) == prepend_delays(
                delays@,
                run_spec(results@.skip(attempt as int), attempt as nat),
            ),
        decreases results@.len() - attempt,
    {
        if attempt >= results.len() {
            proof {
                assert(results@.skip(attempt as int).len() == 0);
            }
            return None;
        }
        let d = classify_attempt(attempt, &results[attempt]);
        proof {
            assert(results@.skip(attempt as int)[0] == results@[attempt as int]);
        }
        match d {
            RetryDecision::Succeed => {
                proof {
                    assert(delays@ + Seq::<u64>::empty() =~= delays@);
                }
                return Some((delays, Ok(attempt)));
            },
            RetryDecision::Fail(k) => {
                proof {
                    assert(delays@ + Seq::<u64>::empty() =~= delays@);
                }
                return Some((delays, Err(k)));
            },
            RetryDecision::RetryAfter(w) => {
                proof {
                    let tail = results@.skip(attempt as int);
                    assert(tail.drop_first() =~= results@.skip(attempt + 1));
                }
                let ghost old_delays = delays@;
                delays.push(w);
                attempt = attempt + 1;
                proof {
                    lemma_prepend_shift(
                        old_delays,
                        w,
                        run_spec(results@.skip(attempt as int), attempt as nat),
                    );
                }
            },
        }
    }
}

proof fn lemma_prepend_empty(t: Option<(Seq<u64>, Result<nat, ErrorKind>)>)
    ensures
        prepend_delays(Seq::<u64>::empty(), t) == t,
{
    match t {
        None => {},
        Some(p) => {
            assert(Seq::<u64>::empty() + p.0 =~= p.0);
        },
    }
}

/// Prefix already-slept delays onto the rest of a run.
pub open spec fn prepend_delays(
    delays: Seq<u64>,
    t: Option<(Seq<u64>, Result<nat, ErrorKind>)>,
) -> Option<(Seq<u64>, Result<nat, ErrorKind>)> {
    match t {
        None => None,
        Some(p) => Some((delays + p.0, p.1)),
    }
}

proof fn lemma_prepend_shift(
    delays: Seq<u64>,
    w: u64,
    t: Option<(Seq<u64>, Result<nat, ErrorKind>)>,
)
    ensures
        prepend_delays(delays, prepend_delays(seq![w], t)) == prepend_delays(delays.push(w), t),
{
    match t {
        None => {},
        Some(p) => {
            assert(delays + (seq![w] + p.0) =~= delays.push(w) + p.0);
        },
    }
}

/// The retry budget is hard: however the upstream answers, a fetch
/// cycle sleeps at most `MAX_RETRIES` times - so it calls the upstream
/// at most `MAX_RETRIES + 1` times - and with that many answers at hand
/// the cycle always reaches a terminal outcome.
pub proof fn lemma_retry_budget(rs: Seq<AttemptResult>)
    requires
        rs.len() > MAX_RETRIES,
    ensures
        run_spec(rs, 0) matches Some(t) && t.0.len() <= MAX_RETRIES,
{
    lemma_retry_budget_from(rs, 0);
}

proof fn lemma_retry_budget_from(rs: Seq<AttemptResult>, a: nat)
    requires
        a <= MAX_RETRIES,
        rs.len() > MAX_RETRIES - a,
    ensures
        run_spec(rs, a) matches Some(t) && t.0.len() <= MAX_RETRIES - a,
    decreases rs.len(),
{
    match decision(a, rs[0]) {
        RetryDecision::Succeed => {},
        RetryDecision::Fail(_) => {},
        RetryDecision::RetryAfter(_) => {
            lemma_retry_budget_from(rs.drop_first(), a + 1);
        },
    }
}

/// A client-error status other than 429 fails on the first attempt with
/// zero retries and no delay.
pub proof fn lemma_client_error_immediate(rs: Seq<AttemptResult>, s: u16)
    requires
        rs.len() >= 1,
        rs[0] == AttemptResult::Status(s),
        400 <= s <= 499,
        s != 429,
    ensures
        run_spec(rs, 0) matches Some(t) && t.0 =~= Seq::<u64>::empty() && t.1 == Err::<
            nat,
            ErrorKind,
        >(ErrorKind::UpstreamClientError),
{
}

/// An upstream that answers 5xx on every attempt exhausts the retry
/// budget: the cycle fails with `UpstreamServerError` after exactly
/// `MAX_RETRIES` retries, each preceded by the fixed delay.
pub proof fn lemma_server_error_exhausts(rs: Seq<AttemptResult>, s: u16)
    requires
        rs.len() > MAX_RETRIES,
        500 <= s <= 599,
        forall|i: int| 0 <= i < rs.len() ==> rs[i] == AttemptResult::Status(s),
    ensures
        run_spec(rs, 0) matches Some(t) && t.0 =~= seq![
            RETRY_DELAY_SECS,
            RETRY_DELAY_SECS,
            RETRY_DELAY_SECS,
        ] && t.1 == Err::<nat, ErrorKind>(ErrorKind::UpstreamServerError),
{
    let r1 = rs.drop_first();
    let r2 = r1.drop_first();
    let r3 = r2.drop_first();
    assert(r1[0] == rs[1]);
    assert(r2[0] == rs[2]);
    assert(r3[0] == rs[3]);
    assert(run_spec(r3, 3) matches Some(t) && t.0 =~= Seq::<u64>::empty() && t.1 == Err::<
        nat,
        ErrorKind,
    >(ErrorKind::UpstreamServerError));
    assert(run_spec(r2, 2) matches Some(t) && t.0 =~= seq![RETRY_DELAY_SECS] && t.1 == Err::<
        nat,
        ErrorKind,
    >(ErrorKind::UpstreamServerError));
    assert(run_spec(r1, 1) matches Some(t) && t.0 =~= seq![RETRY_DELAY_SECS, RETRY_DELAY_SECS]
        && t.1 == Err::<nat, ErrorKind>(ErrorKind::UpstreamServerError));
}

/// `k` rate-limited answers (k within budget) followed by a success:
/// the cycle succeeds on attempt `k` after the first `k` steps of the
/// exponential backoff ladder.
pub proof fn lemma_rate_limited_then_success(rs: Seq<AttemptResult>, k: nat, s: u16)
    requires
        k <= MAX_RETRIES,
        rs.len() > k,
        forall|i: int| 0 <= i < k ==> rs[i] == AttemptResult::Status(429),
        rs[k as int] == AttemptResult::Status(s),
        200 <= s <= 299,
    ensures
        run_spec(rs, 0) matches Some(t) && t.0 =~= Seq::new(k, |i: int| backoff_secs(i as nat))
            && t.1 == Ok::<nat, ErrorKind>(k),
{
    lemma_rate_limited_offset(rs, 0, k, s);
}

proof fn lemma_rate_limited_offset(rs: Seq<AttemptResult>, a: nat, k: nat, s: u16)
    requires
        a + k <= MAX_RETRIES,
        rs.len() > k,
        forall|i: int| 0 <= i < k ==> rs[i] == AttemptResult::Status(429),
        rs[k as int] == AttemptResult::Status(s),
        200 <= s <= 299,
    ensures
        run_spec(rs, a) matches Some(t) && t.0 =~= Seq::new(
            k,
            |i: int| backoff_secs((a + i) as nat),
        ) && t.1 == Ok::<nat, ErrorKind>((a + k) as nat),
    decreases k,
{
    if k == 0 {
    } else {
        let tail = rs.drop_first();
        assert(tail[k - 1] == rs[k as int]);
        assert(forall|i: int| 0 <= i < k - 1 ==> tail[i] == rs[i + 1]);
        lemma_rate_limited_offset(tail, a + 1, (k - 1) as nat, s);
        let t = run_spec(tail, a + 1).unwrap();
        assert(seq![backoff_secs(a)] + t.0 =~= Seq::new(k, |i: int| backoff_secs((a + i) as nat)));
    }
}

/// A full ladder of rate-limited answers exhausts the budget: the cycle
/// fails with `UpstreamRateLimited` after the whole backoff ladder.
pub proof fn lemma_rate_limited_capped(rs: Seq<AttemptResult>)
    requires
        rs.len() > MAX_RETRIES,
        forall|i: int| 0 <= i <= MAX_RETRIES ==> rs[i] == AttemptResult::Status(429),
    ensures
        run_spec(rs, 0) matches Some(t) && t.0 =~= seq![1u64, 2u64, 4u64] && t.1 == Err::<
            nat,
            ErrorKind,
        >(ErrorKind::UpstreamRateLimited),
{
    let r1 = rs.drop_first();
    let r2 = r1.drop_first();
    let r3 = r2.drop_first();
    assert(r1[0] == rs[1]);
    assert(r2[0] == rs[2]);
    assert(r3[0] == rs[3]);
    assert(run_spec(r3, 3) matches Some(t) && t.0 =~= Seq::<u64>::empty() && t.1 == Err::<
        nat,
        ErrorKind,
    >(ErrorKind::UpstreamRateLimited));
    assert(run_spec(r2, 2) matches Some(t) && t.0 =~= seq![4u64] && t.1 == Err::<
        nat,
        ErrorKind,
    >(ErrorKind::UpstreamRateLimited));
    assert(run_spec(r1, 1) matches Some(t) && t.0 =~= seq![2u64, 4u64] && t.1 == Err::<
        nat,
        ErrorKind,
    >(ErrorKind::UpstreamRateLimited));
}

} // verus!
