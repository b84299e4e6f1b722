//! Closure coordination: removing a session, and combining the
//! partial failures of cookie cleanup and page close into the one
//! result a close reports.
//!
//! Removal happens first and exactly once per id: the first close
//! (manual or automatic) that observes the id present removes it, and
//! any later attempt yields `NotFound`.  The composition root then
//! clears the page's cookies best-effort, always attempts to close
//! the page, and reports what `combine_close_results` decides: cookie
//! cleanup must not block the tab from being released, but its
//! failure is still surfaced when the close itself succeeds, and when
//! both fail one combined error names both.

use vstd::prelude::*;
use crate::errors::{prefix_msg, Error, ErrorInfo};
use crate::registry::Registry;

verus! {

use vstd::string::StringExecFns;

/// The message of a `NotFound` error for an absent tab.
pub open spec fn spec_tab_not_found_message(tab_id: Seq<char>) -> Seq<char> {
    "tab_id "@ + tab_id
}

/// The message reported when cookie cleanup failed.
pub open spec fn spec_cookie_cleanup_failed_message(detail: Seq<char>) -> Seq<char> {
    "Failed to clear cookies: "@ + detail
}

/// The message reported when closing the page failed.
pub open spec fn spec_close_failed_message(detail: Seq<char>) -> Seq<char> {
    "Failed to close tab: "@ + detail
}

/// The single message naming both failures when cookie cleanup and
/// the page close both failed.
pub open spec fn spec_combined_close_message(
    close_detail: Seq<char>,
    cookie_detail: Seq<char>,
) -> Seq<char> {
    spec_close_failed_message(close_detail) + "; "@ + spec_cookie_cleanup_failed_message(
        cookie_detail,
    )
}

/// Where every close starts: atomically takes the handle stored
/// under the id out of the registry, deleting the entry, so that the
/// caller is the handle's sole owner; an absent id short-circuits
/// with `NotFound` and changes nothing.  Removal happens exactly
/// once: after a removal the id is no longer live, so a second close
/// observes an absent id.
pub fn remove_tab<H>(registry: &mut Registry<H>, tab_id: &str) -> (r: Result<H, Error>)
    ensures
        !old(registry)@.contains_key(tab_id@) ==> ({
            &&& r matches Err(e)
            &&& e matches Error::NotFound(m)
            &&& m@ == spec_tab_not_found_message(tab_id@)
            &&& final(registry)@ == old(registry)@
        }),
        old(registry)@.contains_key(tab_id@) ==> ({
            &&& r matches Ok(h)
            &&& h == old(registry)@[tab_id@]
            &&& final(registry)@ == old(registry)@.remove(tab_id@)
            &&& !final(registry)@.contains_key(tab_id@)
        }),
{
    match registry.remove(tab_id) {
        Some(h) => Ok(h),
        None => Err(Error::NotFound(prefix_msg("tab_id ", tab_id))),
    }
}

/// Combines the cookie-cleanup outcome and the page-close outcome
/// into the one result a close reports: success only when the close
/// succeeded and no cookie step failed; a cookie failure is surfaced
/// when the close succeeded; a close failure is reported, combined
/// with the cookie failure when both occurred, never swallowing it.
pub fn combine_close_results(cookie_failure: Option<String>, close_result: Result<(), String>) -> (r:
    Result<(), Error>)
    ensures
        close_result is Ok && cookie_failure is None ==> r is Ok,
        close_result is Ok ==> (cookie_failure matches Some(c) ==> ({
            &&& r matches Err(e)
            &&& e matches Error::Operation(info)
            &&& info.message@ == spec_cookie_cleanup_failed_message(c@)
            &&& info.code is None
        })),
        cookie_failure is None ==> (close_result matches Err(d) ==> ({
            &&& r matches Err(e)
            &&& e matches Error::Operation(info)
            &&& info.message@ == spec_close_failed_message(d@)
            &&& info.code is None
        })),
        close_result matches Err(d) ==> (cookie_failure matches Some(c) ==> ({
            &&& r matches Err(e)
            &&& e matches Error::Operation(info)
            &&& info.message@ == spec_combined_close_message(d@, c@)
            &&& info.code is None
        })),
        r matches Err(e) ==> e is Operation,
{
    match close_result {
        Ok(()) => match cookie_failure {
            None => Ok(()),
            Some(c) => {
                let message = prefix_msg("Failed to clear cookies: ", c.as_str());
                Err(Error::Operation(ErrorInfo { message, code: None }))
            },
        },
        Err(d) => {
            let mut message = prefix_msg("Failed to close tab: ", d.as_str());
            match cookie_failure {
                None => (),
                Some(c) => {
                    message.append("; ");
                    message.append("Failed to clear cookies: ");
                    message.append(c.as_str());
                },
            }
            Err(Error::Operation(ErrorInfo { message, code: None }))
        },
    }
}

/// Removal happens once: the id a close (or auto-close) removed is no
/// longer live, so a second close on the same id observes an absent
/// id and, by `remove_tab`'s contract, yields `NotFound`.
pub proof fn lemma_removed_id_not_live<H>(registry_view: Map<Seq<char>, H>, tab_id: Seq<char>)
    requires
        registry_view.contains_key(tab_id),
    ensures
        !registry_view.remove(tab_id).contains_key(tab_id),
{
}

/// A tab that `register_tab` stored under a fresh id and a close
/// (manual or automatic) later removed leaves the registry exactly
/// as it was: the two contracts round-trip.
pub proof fn lemma_open_close_round_trip<H>(
    registry_view: Map<Seq<char>, H>,
    tab_id: Seq<char>,
    handle: H,
)
    requires
        !registry_view.contains_key(tab_id),
    ensures
        registry_view.insert(tab_id, handle).remove(tab_id) =~= registry_view,
{
}

/// What a scheduled auto-close observed.  `AlreadyGone` is the
/// benign race with a manual close: it is only ever logged, never
/// reported to any caller, for no caller is waiting on it.
pub enum AutoCloseOutcome {
    Closed,
    AlreadyGone,
    Failed(String),
}

/// How the expiry timer reads the result of the close path it
/// shares with a manual close: an absent id is absorbed as a no-op,
/// success and failure are only logged.
pub fn auto_close_outcome(close_result: Result<(), Error>) -> (r: AutoCloseOutcome)
    ensures
        close_result is Ok ==> r is Closed,
        close_result matches Err(e) ==> (e is NotFound <==> r is AlreadyGone),
        close_result matches Err(e) ==> (!(e is NotFound) ==> ({
            &&& r matches AutoCloseOutcome::Failed(m)
            &&& m@ == e.spec_render()
        })),
{
    match close_result {
        Ok(()) => AutoCloseOutcome::Closed,
        Err(e) => match e {
            Error::NotFound(_) => AutoCloseOutcome::AlreadyGone,
            other => AutoCloseOutcome::Failed(other.render()),
        },
    }
}

} // verus!
