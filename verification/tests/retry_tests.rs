use spacefetch::retry::AttemptResult;
use spacefetch::retry::ErrorKind;
use spacefetch::retry::RetryDecision;
use spacefetch::retry::RetryState;
use spacefetch::retry::classify_attempt;
use spacefetch::retry::run_policy;

#[test]
fn rate_limited_twice_then_success() {
    // 429 on attempts 1 and 2, 200 on attempt 3: success after exactly
    // two delays of 1s and 2s.
    let results = vec![
        AttemptResult::Status(429),
        AttemptResult::Status(429),
        AttemptResult::Status(200),
    ];
    let (delays, outcome) = run_policy(&results).unwrap();
    assert_eq!(delays, vec![1, 2]);
    assert_eq!(outcome, Ok(2));
}

#[test]
fn rate_limited_capped() {
    // 429 on every attempt: the full backoff ladder, then failure.
    let results = vec![
        AttemptResult::Status(429),
        AttemptResult::Status(429),
        AttemptResult::Status(429),
        AttemptResult::Status(429),
    ];
    let (delays, outcome) = run_policy(&results).unwrap();
    assert_eq!(delays, vec![1, 2, 4]);
    assert_eq!(outcome, Err(ErrorKind::UpstreamRateLimited));
}

#[test]
fn server_error_exhausts_retries() {
    // Always 500: failure after exactly three retries, each preceded
    // by a fixed 2s delay.
    let results = vec![
        AttemptResult::Status(500),
        AttemptResult::Status(500),
        AttemptResult::Status(500),
        AttemptResult::Status(500),
    ];
    let (delays, outcome) = run_policy(&results).unwrap();
    assert_eq!(delays, vec![2, 2, 2]);
    assert_eq!(outcome, Err(ErrorKind::UpstreamServerError));
}

#[test]
fn client_error_fails_immediately() {
    // A 404 fails on the first attempt with zero retries.
    let results = vec![AttemptResult::Status(404), AttemptResult::Status(200)];
    let (delays, outcome) = run_policy(&results).unwrap();
    assert_eq!(delays, Vec::<u64>::new());
    assert_eq!(outcome, Err(ErrorKind::UpstreamClientError));
}

#[test]
fn transport_failures_retry_with_fixed_delay() {
    let results = vec![
        AttemptResult::Transport,
        AttemptResult::Transport,
        AttemptResult::Status(204),
    ];
    let (delays, outcome) = run_policy(&results).unwrap();
    assert_eq!(delays, vec![2, 2]);
    assert_eq!(outcome, Ok(2));
}

#[test]
fn transport_exhausts_to_transport_error() {
    let results = vec![
        AttemptResult::Transport,
        AttemptResult::Transport,
        AttemptResult::Transport,
        AttemptResult::Transport,
    ];
    let (delays, outcome) = run_policy(&results).unwrap();
    assert_eq!(delays, vec![2, 2, 2]);
    assert_eq!(outcome, Err(ErrorKind::Transport));
}

#[test]
fn success_on_first_attempt() {
    let results = vec![AttemptResult::Status(200)];
    let (delays, outcome) = run_policy(&results).unwrap();
    assert!(delays.is_empty());
    assert_eq!(outcome, Ok(0));
}

#[test]
fn no_results_no_outcome() {
    assert!(run_policy(&Vec::new()).is_none());
}

#[test]
fn classification_cases() {
    assert_eq!(classify_attempt(0, &AttemptResult::Status(250)), RetryDecision::Succeed);
    assert_eq!(classify_attempt(0, &AttemptResult::Status(429)), RetryDecision::RetryAfter(1));
    assert_eq!(classify_attempt(1, &AttemptResult::Status(429)), RetryDecision::RetryAfter(2));
    assert_eq!(classify_attempt(2, &AttemptResult::Status(429)), RetryDecision::RetryAfter(4));
    assert_eq!(
        classify_attempt(3, &AttemptResult::Status(429)),
        RetryDecision::Fail(ErrorKind::UpstreamRateLimited)
    );
    assert_eq!(classify_attempt(0, &AttemptResult::Status(503)), RetryDecision::RetryAfter(2));
    assert_eq!(
        classify_attempt(3, &AttemptResult::Status(503)),
        RetryDecision::Fail(ErrorKind::UpstreamServerError)
    );
    assert_eq!(
        classify_attempt(0, &AttemptResult::Status(400)),
        RetryDecision::Fail(ErrorKind::UpstreamClientError)
    );
    assert_eq!(classify_attempt(0, &AttemptResult::Transport), RetryDecision::RetryAfter(2));
    assert_eq!(
        classify_attempt(3, &AttemptResult::Transport),
        RetryDecision::Fail(ErrorKind::Transport)
    );
}

#[test]
fn retry_state_advances_only_on_retry() {
    let mut st = RetryState::new();
    assert_eq!(st.attempt, 0);
    let d = st.on_result(&AttemptResult::Status(429));
    assert_eq!(d, RetryDecision::RetryAfter(1));
    assert_eq!(st.attempt, 1);
    let d = st.on_result(&AttemptResult::Status(200));
    assert_eq!(d, RetryDecision::Succeed);
    assert_eq!(st.attempt, 1);
}
