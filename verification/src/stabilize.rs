//! Navigation stabilization: the bounded polling decisions that turn
//! the driver's weak navigation signal into a reliable "the page has
//! settled" answer.
//!
//! After a click, the driver's navigation wait is given ten seconds;
//! a timeout there means "no navigation occurred" and is not an
//! error.  Then the page's location is polled every 150 ms: the poll
//! stops once the location has stayed unchanged for 750 ms, once the
//! total elapsed time reaches the 15-second ceiling, or as soon as a
//! reading is unavailable — stabilization is advisory and degrades to
//! success rather than blocking beyond its budget.

use vstd::prelude::*;
use crate::errors::{Error, ErrorInfo};

verus! {

/// Seconds granted to the driver's navigation wait after a click.
pub const NAV_WAIT_SECONDS: u64 = 10;

/// Milliseconds between two location polls.
pub const POLL_INTERVAL_MS: u64 = 150;

/// Milliseconds the location must stay unchanged for the page to
/// count as settled.
pub const SETTLE_MS: u64 = 750;

/// Hard ceiling, in milliseconds, on the whole stabilization phase.
pub const CEILING_MS: u64 = 15000;

/// Poll-count budget mirroring the ceiling under the nominal poll
/// interval: a second, independent bound on the poll loop.
pub const MAX_POLL_TICKS: u64 = CEILING_MS / POLL_INTERVAL_MS;

/// What the driver's navigation wait reported: the page finished
/// navigating, the wait timed out with no navigation seen, or the
/// wait itself failed.
pub enum NavWaitOutcome {
    Completed,
    TimedOut,
    Failed(String),
}

/// The view of an optional location reading.
pub open spec fn spec_reading_view(reading: Option<String>) -> Option<Seq<char>> {
    match reading {
        Some(l) => Some(l@),
        None => None,
    }
}

/// Whether one poll step ends the stabilization phase: it does when
/// the reading is unavailable, when the elapsed time has reached the
/// ceiling, or when the location has stayed unchanged for the settle
/// threshold.
pub open spec fn spec_step_settled(
    last_location: Seq<char>,
    last_change_ms: u64,
    now_ms: u64,
    reading: Option<Seq<char>>,
) -> bool {
    match reading {
        None => true,
        Some(loc) => now_ms >= CEILING_MS || (loc == last_location && last_change_ms <= now_ms
            && now_ms - last_change_ms >= SETTLE_MS),
    }
}

/// What one poll tracks: the last location seen and the elapsed
/// milliseconds at which it last changed.
pub struct StabilizeState {
    pub last_location: String,
    pub last_change_ms: u64,
}

impl StabilizeState {
    /// Tracking starts at the first reading.
    pub fn start(first_location: String, now_ms: u64) -> (r: Self)
        ensures
            r.last_location == first_location,
            r.last_change_ms == now_ms,
    {
        StabilizeState { last_location: first_location, last_change_ms: now_ms }
    }

    /// One poll step: updates the tracked location and change time and
    /// says whether the page now counts as settled.
    pub fn step(&mut self, now_ms: u64, reading: Option<String>) -> (settled: bool)
        ensures
            settled == spec_step_settled(
                old(self).last_location@,
                old(self).last_change_ms,
                now_ms,
                spec_reading_view(reading),
            ),
            match reading {
                None => *final(self) == *old(self),
                Some(loc) => if loc@ == old(self).last_location@ {
                    *final(self) == *old(self)
                } else {
                    final(self).last_location == loc && final(self).last_change_ms == now_ms
                },
            },
    {
        match reading {
            None => true,
            Some(loc) => {
                if loc == self.last_location {
                    now_ms >= CEILING_MS || (self.last_change_ms <= now_ms && now_ms
                        - self.last_change_ms >= SETTLE_MS)
                } else {
                    self.last_location = loc;
                    self.last_change_ms = now_ms;
                    now_ms >= CEILING_MS
                }
            },
        }
    }
}

/// However often the location keeps changing, a poll at or past the
/// ceiling settles: stabilization never runs beyond its hard budget.
pub proof fn lemma_ceiling_settles(
    last_location: Seq<char>,
    last_change_ms: u64,
    now_ms: u64,
    reading: Option<Seq<char>>,
)
    requires
        now_ms >= CEILING_MS,
    ensures
        spec_step_settled(last_location, last_change_ms, now_ms, reading),
{
}

/// A location that has stayed unchanged for the settle threshold
/// settles the poll, whatever the remaining budget.
pub proof fn lemma_quiet_settles(last_location: Seq<char>, last_change_ms: u64, now_ms: u64)
    requires
        last_change_ms <= now_ms,
        now_ms - last_change_ms >= SETTLE_MS,
    ensures
        spec_step_settled(last_location, last_change_ms, now_ms, Some(last_location)),
{
}

/// An unavailable reading settles the poll at once: stabilization is
/// advisory and never turns a read failure into an error.
pub proof fn lemma_read_failure_settles(last_location: Seq<char>, last_change_ms: u64, now_ms: u64)
    ensures
        spec_step_settled(last_location, last_change_ms, now_ms, None),
{
}

/// The message reported when the navigation wait itself fails.
pub open spec fn spec_nav_wait_failed_message(detail: Seq<char>) -> Seq<char> {
    "Failed to wait for navigation: "@ + detail
}

/// Decision on the driver's navigation-wait outcome after a click: a
/// completed navigation proceeds, a timeout means "no navigation
/// occurred" and proceeds as well; only an explicit wait failure is
/// propagated as an error.
pub fn nav_wait_decision(outcome: NavWaitOutcome) -> (r: Result<(), Error>)
    ensures
        match outcome {
            NavWaitOutcome::Completed => r is Ok,
            NavWaitOutcome::TimedOut => r is Ok,
            NavWaitOutcome::Failed(detail) => ({
                &&& r matches Err(e)
                &&& e matches Error::Operation(info)
                &&& info.message@ == spec_nav_wait_failed_message(detail@)
                &&& info.code is None
            }),
        },
{
    match outcome {
        NavWaitOutcome::Completed => Ok(()),
        NavWaitOutcome::TimedOut => Ok(()),
        NavWaitOutcome::Failed(detail) => {
            let message = crate::errors::prefix_msg("Failed to wait for navigation: ", detail.as_str());
            Err(Error::Operation(ErrorInfo { message, code: None }))
        },
    }
}

} // verus!
