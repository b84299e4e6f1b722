//! Tab lifecycle: validating the URL a tab is opened against,
//! clamping the auto-close delay, and registering a freshly opened
//! page under a fresh id.
//!
//! The composition root drives the driver steps (blank page,
//! anti-detection profile, navigation, navigation wait) and, only
//! once they all succeeded, hands the page handle to `register_tab`;
//! on any earlier failure it closes the page before reporting, so
//! either the registry holds a fully navigated tab or nothing is
//! registered.

use vstd::prelude::*;
use crate::errors::{operation_error, prefix_msg, Error};
use crate::registry::Registry;
use crate::trusted::{new_session_id, parsed_url_of, try_parse_url};

verus! {

/// Smallest accepted auto-close delay, in seconds.
pub const MIN_EXPIRATION_SECONDS: u64 = 1;

/// Largest accepted auto-close delay, in seconds.
pub const MAX_EXPIRATION_SECONDS: u64 = 3600;

/// The auto-close delay an open request ends up with: its
/// `expirationSeconds`, clamped into `[1, 3600]`.
pub open spec fn spec_clamp_expiration(secs: i64) -> u64 {
    if secs < MIN_EXPIRATION_SECONDS as i64 {
        MIN_EXPIRATION_SECONDS
    } else if secs > MAX_EXPIRATION_SECONDS as i64 {
        MAX_EXPIRATION_SECONDS
    } else {
        secs as u64
    }
}

/// Clamps a requested expiration into the accepted range before it
/// is scheduled.
pub fn clamp_expiration_seconds(secs: i64) -> (r: u64)
    ensures
        r == spec_clamp_expiration(secs),
        MIN_EXPIRATION_SECONDS <= r <= MAX_EXPIRATION_SECONDS,
{
    if secs < 1 {
        MIN_EXPIRATION_SECONDS
    } else if secs > 3600 {
        MAX_EXPIRATION_SECONDS
    } else {
        secs as u64
    }
}

/// Validates a URL exactly as an open does, before any driver call:
/// `None` for a string the parser rejects, the parsed URL in
/// normalized rendering otherwise.  The normalized form is what the
/// tab is navigated to.
pub fn validate_url(url: &str) -> (r: Option<String>)
    ensures
        r is Some <==> parsed_url_of(url@) is Some,
        r matches Some(u) ==> parsed_url_of(url@) == Some(u@),
{
    try_parse_url(url)
}

/// The message reported for a URL the parser rejects.
pub open spec fn spec_invalid_url_message(url: Seq<char>) -> Seq<char> {
    "Invalid URL: "@ + url
}

/// The error an open reports for a URL the parser rejects; no driver
/// call is attempted for such a URL.
pub fn invalid_url_error(url: &str) -> (r: Error)
    ensures
        ({
            &&& r matches Error::Operation(info)
            &&& info.message@ == spec_invalid_url_message(url@)
            &&& info.code is None
        }),
{
    operation_error(prefix_msg("Invalid URL: ", url))
}

/// What a successful open hands back: the fresh id, and the clamped
/// delay after which the composition root schedules the auto-close.
pub struct OpenedTab {
    pub tab_id: String,
    pub close_after_seconds: u64,
}

/// Registers a fully navigated page under a fresh id — one never
/// equal to any currently-live id — and clamps the requested
/// expiration for the auto-close the caller schedules.  Ids are
/// generated, and a collision is treated as impossible, but
/// freshness is checked rather than assumed; the attempt bound keeps
/// the check from ever spinning, and reaching it (a broken id
/// generator) registers nothing.
pub fn register_tab<H>(registry: &mut Registry<H>, handle: H, expiration_seconds: i64) -> (r:
    Result<OpenedTab, Error>)
    ensures
        r matches Ok(o) ==> ({
            &&& !old(registry)@.contains_key(o.tab_id@)
            &&& final(registry)@ == old(registry)@.insert(o.tab_id@, handle)
            &&& o.close_after_seconds == spec_clamp_expiration(expiration_seconds)
        }),
        r is Err ==> final(registry)@ == old(registry)@,
{
    let mut tab_id = new_session_id();
    let mut attempts: u64 = 0;
    while registry.contains(tab_id.as_str())
        invariant
            attempts <= 16,
            registry@ == old(registry)@,
        decreases 16 - attempts,
    {
        if attempts >= 16 {
            return Err(operation_error(prefix_msg("Failed to open tab: ", "no fresh id")));
        }
        attempts = attempts + 1;
        tab_id = new_session_id();
    }
    let id_out = tab_id.clone();
    registry.insert(tab_id, handle);
    Ok(
        OpenedTab {
            tab_id: id_out,
            close_after_seconds: clamp_expiration_seconds(expiration_seconds),
        },
    )
}

} // verus!
