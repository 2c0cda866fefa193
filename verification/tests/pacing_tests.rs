use pipeup::pacing::{next_delay, FlushOutcome, INITIAL_DELAY_MS, MAX_DELAY_MS, MIN_DELAY_MS};

#[test]
fn success_shrinks_delay_by_step() {
    assert_eq!(next_delay(100, FlushOutcome::Success), 90);
    assert_eq!(next_delay(2000, FlushOutcome::Success), 1990);
}

#[test]
fn success_clamps_at_min_delay() {
    assert_eq!(next_delay(55, FlushOutcome::Success), 50);
    assert_eq!(next_delay(50, FlushOutcome::Success), 50);
    assert_eq!(MIN_DELAY_MS, 50);
}

#[test]
fn failure_doubles_delay() {
    assert_eq!(next_delay(100, FlushOutcome::Failure), 200);
    assert_eq!(next_delay(50, FlushOutcome::Failure), 100);
}

#[test]
fn failure_clamps_at_max_delay() {
    assert_eq!(next_delay(1500, FlushOutcome::Failure), 2000);
    assert_eq!(next_delay(2000, FlushOutcome::Failure), 2000);
    assert_eq!(MAX_DELAY_MS, 2000);
}

#[test]
fn consecutive_successes_reach_min_and_stay() {
    // From the initial delay, each success takes 10 ms off until the
    // minimum delay is reached.
    let mut d = INITIAL_DELAY_MS;
    let expected = [90, 80, 70, 60, 50, 50, 50];
    for e in expected {
        d = next_delay(d, FlushOutcome::Success);
        assert_eq!(d, e);
    }
}

#[test]
fn consecutive_failures_reach_max_and_stay() {
    // From the initial delay, each failure doubles until the maximum delay
    // is reached.
    let mut d = INITIAL_DELAY_MS;
    let expected = [200, 400, 800, 1600, 2000, 2000];
    for e in expected {
        d = next_delay(d, FlushOutcome::Failure);
        assert_eq!(d, e);
    }
}
