//! The stabilizer's poll decisions: settle on quiet, stop at the
//! ceiling however often the location changes, absorb read failures,
//! and treat a navigation-wait timeout as "no navigation occurred".

use tab_registry::errors::Error;
use tab_registry::stabilize::{
    nav_wait_decision, NavWaitOutcome, StabilizeState, CEILING_MS, MAX_POLL_TICKS,
    NAV_WAIT_SECONDS, POLL_INTERVAL_MS, SETTLE_MS,
};

#[test]
fn constants_are_the_documented_budget() {
    assert_eq!(NAV_WAIT_SECONDS, 10);
    assert_eq!(POLL_INTERVAL_MS, 150);
    assert_eq!(SETTLE_MS, 750);
    assert_eq!(CEILING_MS, 15000);
    assert_eq!(MAX_POLL_TICKS, 100);
}

#[test]
fn read_failure_settles_at_once() {
    let mut state = StabilizeState::start("https://a/".to_string(), 0);
    assert!(state.step(150, None));
    assert_eq!(state.last_location, "https://a/");
    assert_eq!(state.last_change_ms, 0);
}

#[test]
fn unchanged_location_settles_only_after_threshold() {
    let mut state = StabilizeState::start("https://a/".to_string(), 0);
    assert!(!state.step(150, Some("https://a/".to_string())));
    assert!(!state.step(600, Some("https://a/".to_string())));
    assert!(state.step(750, Some("https://a/".to_string())));
}

#[test]
fn changed_location_resets_the_quiet_window() {
    let mut state = StabilizeState::start("https://a/".to_string(), 0);
    assert!(!state.step(600, Some("https://b/".to_string())));
    assert_eq!(state.last_location, "https://b/");
    assert_eq!(state.last_change_ms, 600);
    // 750 ms after the change, not after the start.
    assert!(!state.step(1200, Some("https://b/".to_string())));
    assert!(state.step(1350, Some("https://b/".to_string())));
}

#[test]
fn ceiling_stops_even_a_never_quiet_page() {
    // The location changes at every poll tick; the poll still settles
    // once the elapsed time reaches the ceiling.
    let mut state = StabilizeState::start("u0".to_string(), 0);
    let mut now: u64 = 0;
    let mut ticks: u64 = 0;
    loop {
        now += POLL_INTERVAL_MS;
        ticks += 1;
        let settled = state.step(now, Some(format!("u{}", ticks)));
        if settled {
            break;
        }
        assert!(now < CEILING_MS, "poll ran past the ceiling");
    }
    assert_eq!(now, CEILING_MS);
    assert!(ticks <= MAX_POLL_TICKS);
}

#[test]
fn quiet_page_settles_well_before_the_ceiling() {
    let mut state = StabilizeState::start("https://a/".to_string(), 0);
    let mut now: u64 = 0;
    loop {
        now += POLL_INTERVAL_MS;
        if state.step(now, Some("https://a/".to_string())) {
            break;
        }
    }
    assert_eq!(now, SETTLE_MS);
}

#[test]
fn nav_wait_completed_proceeds() {
    assert!(nav_wait_decision(NavWaitOutcome::Completed).is_ok());
}

#[test]
fn nav_wait_timeout_is_no_navigation_not_an_error() {
    assert!(nav_wait_decision(NavWaitOutcome::TimedOut).is_ok());
}

#[test]
fn nav_wait_failure_propagates() {
    match nav_wait_decision(NavWaitOutcome::Failed("socket closed".to_string())) {
        Err(Error::Operation(info)) => {
            assert_eq!(info.message, "Failed to wait for navigation: socket closed");
            assert_eq!(info.code, None);
        },
        other => panic!("expected an Operation error, got {:?}", other),
    }
}
