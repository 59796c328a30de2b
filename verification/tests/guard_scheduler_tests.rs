use spacefetch::retry::AttemptResult;
use spacefetch::retry::run_policy;
use spacefetch::scheduler::ScheduleEntry;
use spacefetch::scheduler::count_cycles;
use spacefetch::single_flight::GuardEvent;
use spacefetch::single_flight::SingleFlight;
use spacefetch::single_flight::check_trace;

#[test]
fn guard_excludes_second_caller() {
    let mut g = SingleFlight::new();
    assert!(g.try_acquire());
    // A second caller while the first is in flight is refused.
    assert!(!g.try_acquire());
    g.release();
    // After release the next caller runs its own fresh fetch.
    assert!(g.try_acquire());
    g.release();
}

#[test]
fn sequential_refreshes_make_a_valid_trace() {
    // Two refresh calls for one source serialize into two disjoint
    // held-windows.
    let trace = vec![
        GuardEvent::Acquire,
        GuardEvent::Release,
        GuardEvent::Acquire,
        GuardEvent::Release,
    ];
    assert!(check_trace(&trace));
}

#[test]
fn overlapping_holders_are_not_a_guard_trace() {
    let trace = vec![GuardEvent::Acquire, GuardEvent::Acquire];
    assert!(!check_trace(&trace));
}

#[test]
fn release_without_holder_is_not_a_guard_trace() {
    assert!(!check_trace(&vec![GuardEvent::Release]));
    assert!(!check_trace(&vec![
        GuardEvent::Acquire,
        GuardEvent::Release,
        GuardEvent::Release,
    ]));
}

#[test]
fn schedule_entry_due_and_advance() {
    let mut e = ScheduleEntry::new(120, 0);
    assert!(e.is_due(0));
    assert!(!ScheduleEntry::new(120, 10).is_due(9));
    e.cycle_finished(7);
    assert_eq!(e.next_due, 127);
    assert!(!e.is_due(126));
    assert!(e.is_due(127));
}

#[test]
fn three_units_with_instant_fetches() {
    // Interval 1, horizon 3, instant cycles: fetches at 0, 1, 2, 3.
    let n = count_cycles(&vec![0, 0, 0, 0, 0], 1, 3);
    assert_eq!(n, 4);
    assert!((2..=4).contains(&n));
}

#[test]
fn three_units_with_overrunning_fetches() {
    // Each cycle overruns by a full interval: fetches at 0 and 2.
    let n = count_cycles(&vec![1, 1, 1, 1, 1], 1, 3);
    assert_eq!(n, 2);
    assert!((2..=4).contains(&n));
}

#[test]
fn three_units_with_mixed_fetch_durations() {
    // Starts at 0, 1, 3: three cycles within the horizon.
    let n = count_cycles(&vec![0, 1, 0, 1, 0], 1, 3);
    assert_eq!(n, 3);
    assert!((2..=4).contains(&n));
}

#[test]
fn zero_horizon_runs_the_first_cycle() {
    assert_eq!(count_cycles(&vec![0, 0], 5, 0), 1);
}

#[test]
fn apod_schedule_over_three_units_writes_two_to_four_times() {
    // One source on a one-unit interval, observed for three units,
    // against a mock upstream that answers 200 at once: each cycle
    // acquires the guard, fetches, writes once, and reschedules.
    let mut entry = ScheduleEntry::new(1, 0);
    let mut guard = SingleFlight::new();
    let mut writes = 0;
    let mut trace = Vec::new();
    let mut t: u64 = 0;
    while t <= 3 {
        if entry.is_due(t) && guard.try_acquire() {
            trace.push(GuardEvent::Acquire);
            let (delays, outcome) = run_policy(&vec![AttemptResult::Status(200)]).unwrap();
            assert!(delays.is_empty());
            assert_eq!(outcome, Ok(0));
            writes += 1;
            guard.release();
            trace.push(GuardEvent::Release);
            entry.cycle_finished(t);
        }
        t += 1;
    }
    assert!((2..=4).contains(&writes));
    assert_eq!(writes, 4);
    assert!(check_trace(&trace));
}
