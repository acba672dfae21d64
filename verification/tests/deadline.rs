use gp_client::deadline::{limit_ms, Countdown, Deadline, Tick, DEFAULT_TIMEOUT_SECS, TICK_MS};

/// Runs a countdown until it stops or its budget is spent, or `ticks` run out.
fn run(limit: u64, ticks: u32, done_after: Option<u32>, charging: bool) -> Option<Tick> {
    let mut clock = Countdown::new(limit);
    for n in 0..ticks {
        let done = done_after.is_some_and(|d| n >= d);
        match clock.tick(done, charging) {
            Tick::Continue => {}
            other => return Some(other),
        }
    }
    None
}

#[test]
fn an_attempt_that_overruns_its_budget_expires() {
    assert_eq!(run(400, 10, None, true), Some(Tick::Spent));
    let mut deadline = Deadline::new();
    assert!(deadline.claim());
}

#[test]
fn time_that_is_not_charged_never_expires_the_attempt() {
    // Standing in for a prompt the user has not answered yet.
    assert_eq!(run(200, 1000, None, false), None);
}

#[test]
fn finishing_stops_the_countdown() {
    assert_eq!(run(200, 10, Some(0), true), Some(Tick::Stop));
    let mut deadline = Deadline::new();
    deadline.finish();
    assert!(!deadline.claim());
}

#[test]
fn expiry_happens_once() {
    let mut deadline = Deadline::new();
    assert!(deadline.claim());
    assert!(!deadline.claim());
}

#[test]
fn the_budget_counts_only_charged_ticks() {
    let mut clock = Countdown::new(3 * TICK_MS);
    assert_eq!(clock.tick(false, true), Tick::Continue);
    assert_eq!(clock.tick(false, false), Tick::Continue);
    assert_eq!(clock.tick(false, true), Tick::Continue);
    assert_eq!(clock.spent_ms, 2 * TICK_MS);
    assert_eq!(clock.tick(false, true), Tick::Spent);
}

#[test]
fn a_zero_timeout_means_no_limit() {
    assert_eq!(limit_ms(Some(0)), None);
    assert_eq!(limit_ms(None), Some(DEFAULT_TIMEOUT_SECS * 1000));
    assert_eq!(limit_ms(Some(5)), Some(5000));
}

#[test]
fn a_timeout_too_long_to_count_in_milliseconds_is_held_at_the_largest() {
    assert_eq!(limit_ms(Some(u64::MAX)), Some(u64::MAX));
    assert_eq!(limit_ms(Some(u64::MAX / 1000)), Some((u64::MAX / 1000) * 1000));
}

#[test]
fn a_working_attempt_expires_at_its_limit_rounded_up_to_a_tick() {
    let mut clock = Countdown::new(401);
    assert_eq!(clock.tick(false, true), Tick::Continue);
    assert_eq!(clock.tick(false, true), Tick::Continue);
    assert_eq!(clock.tick(false, true), Tick::Spent);
    let mut clock = Countdown::new(400);
    assert_eq!(clock.tick(false, true), Tick::Continue);
    assert_eq!(clock.tick(false, true), Tick::Spent);
}
