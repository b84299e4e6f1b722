//! The action-coordination layer's decisions: tab lookup, the exact
//! errors each action reports, and the coercion of script results.
//!
//! Every action looks the tab up first and yields `NotFound` for an
//! id the registry does not hold; the composition root then issues
//! the driver calls and feeds their outcomes back through the
//! decision functions here, so what is reported for every outcome is
//! verified even though the calls themselves are not.

use vstd::prelude::*;
use crate::errors::{prefix_msg, Error, ErrorInfo};
use crate::closing::spec_tab_not_found_message;
use crate::registry::Registry;

verus! {

use vstd::string::StringExecFns;

/// What a script evaluation handed back: no value at all, a boolean,
/// a string, or any other value in the driver's generic rendering.
pub enum EvalOutcome {
    NoValue,
    BoolValue(bool),
    StringValue(String),
    OtherValue(String),
}

/// The message reported when no element matches a selector.
pub open spec fn spec_element_not_found_message(selector: Seq<char>, detail: Seq<char>) -> Seq<
    char,
> {
    "Failed to find element with selector '"@ + selector + "': "@ + detail
}

/// The message reported when clicking an element failed.
pub open spec fn spec_click_failed_message(selector: Seq<char>, detail: Seq<char>) -> Seq<char> {
    "Failed to click element '"@ + selector + "': "@ + detail
}

/// The message of the `NotFound` error a fill reports when its clear
/// script saw no element under the selector.
pub open spec fn spec_element_missing_message(selector: Seq<char>) -> Seq<char> {
    "Element not found: "@ + selector
}

/// The message reported when the focus-and-clear script failed.
pub open spec fn spec_clear_failed_message(selector: Seq<char>, detail: Seq<char>) -> Seq<char> {
    "Failed to clear input element '"@ + selector + "': "@ + detail
}

/// The message reported when typing into a field failed.
pub open spec fn spec_type_failed_message(selector: Seq<char>, detail: Seq<char>) -> Seq<char> {
    "Failed to fill input element '"@ + selector + "': "@ + detail
}

/// The message reported when the clear script answered with a value
/// it never produces.
pub open spec fn spec_unexpected_clear_message(selector: Seq<char>) -> Seq<char> {
    "Unexpected clear result for element '"@ + selector + "'"@
}

/// The message reported when evaluating a script on an element failed.
pub open spec fn spec_eval_on_element_failed_message(
    selector: Seq<char>,
    detail: Seq<char>,
) -> Seq<char> {
    "Failed to evaluate JS on element '"@ + selector + "': "@ + detail
}

/// The message reported when evaluating a script on the page failed.
pub open spec fn spec_eval_on_tab_failed_message(detail: Seq<char>) -> Seq<char> {
    "Failed to evaluate JS on tab: "@ + detail
}

/// The message reported when reading an element's text failed.
pub open spec fn spec_inner_text_failed_message(selector: Seq<char>, detail: Seq<char>) -> Seq<
    char,
> {
    "Failed to get content of element '"@ + selector + "': "@ + detail
}

/// The message reported when capturing a screenshot failed.
pub open spec fn spec_screenshot_failed_message(detail: Seq<char>) -> Seq<char> {
    "Failed to capture screenshot: "@ + detail
}

/// The message reported when the humanizing script failed.
pub open spec fn spec_humanize_failed_message(detail: Seq<char>) -> Seq<char> {
    "Failed to humanize tab: "@ + detail
}

/// A message of the shape `<prefix><selector>': <detail>`.
fn quoted_selector_msg(prefix: &str, selector: &str, detail: &str) -> (r: String)
    ensures
        r@ == prefix@ + selector@ + "': "@ + detail@,
{
    let mut s = prefix.to_owned();
    s.append(selector);
    s.append("': ");
    s.append(detail);
    s
}

/// Where every action starts: the handle stored under the id, or the
/// `NotFound` error that every action reports for an id the registry
/// does not hold — nothing else runs for such an id.
pub fn lookup_tab<'a, H>(registry: &'a Registry<H>, tab_id: &str) -> (r: Result<&'a H, Error>)
    ensures
        !registry@.contains_key(tab_id@) ==> ({
            &&& r matches Err(e)
            &&& e matches Error::NotFound(m)
            &&& m@ == spec_tab_not_found_message(tab_id@)
        }),
        registry@.contains_key(tab_id@) ==> ({
            &&& r matches Ok(h)
            &&& *h == registry@[tab_id@]
        }),
{
    match registry.lookup(tab_id) {
        Some(h) => Ok(h),
        None => Err(Error::NotFound(prefix_msg("tab_id ", tab_id))),
    }
}

/// The `NotFound` error a click or extract reports when no element
/// matched the selector.
pub fn element_not_found_error(selector: &str, detail: &str) -> (r: Error)
    ensures
        ({
            &&& r matches Error::NotFound(m)
            &&& m@ == spec_element_not_found_message(selector@, detail@)
        }),
{
    Error::NotFound(
        quoted_selector_msg("Failed to find element with selector '", selector, detail),
    )
}

/// The error a click reports when the driver's click itself failed.
pub fn click_failure_error(selector: &str, detail: &str) -> (r: Error)
    ensures
        ({
            &&& r matches Error::Operation(info)
            &&& info.message@ == spec_click_failed_message(selector@, detail@)
            &&& info.code is None
        }),
{
    Error::Operation(
        ErrorInfo {
            message: quoted_selector_msg("Failed to click element '", selector, detail),
            code: None,
        },
    )
}

/// The error an execute reports when evaluating against an element
/// failed.
pub fn eval_on_element_failure_error(selector: &str, detail: &str) -> (r: Error)
    ensures
        ({
            &&& r matches Error::Operation(info)
            &&& info.message@ == spec_eval_on_element_failed_message(selector@, detail@)
            &&& info.code is None
        }),
{
    Error::Operation(
        ErrorInfo {
            message: quoted_selector_msg("Failed to evaluate JS on element '", selector, detail),
            code: None,
        },
    )
}

/// The error an execute reports when evaluating against the page
/// failed.
pub fn eval_on_tab_failure_error(detail: &str) -> (r: Error)
    ensures
        ({
            &&& r matches Error::Operation(info)
            &&& info.message@ == spec_eval_on_tab_failed_message(detail@)
            &&& info.code is None
        }),
{
    Error::Operation(
        ErrorInfo { message: prefix_msg("Failed to evaluate JS on tab: ", detail), code: None },
    )
}

/// The error an extract reports when reading the element's text
/// failed.
pub fn inner_text_failure_error(selector: &str, detail: &str) -> (r: Error)
    ensures
        ({
            &&& r matches Error::Operation(info)
            &&& info.message@ == spec_inner_text_failed_message(selector@, detail@)
            &&& info.code is None
        }),
{
    Error::Operation(
        ErrorInfo {
            message: quoted_selector_msg("Failed to get content of element '", selector, detail),
            code: None,
        },
    )
}

/// The error a screenshot reports when the capture failed.
pub fn screenshot_failure_error(detail: &str) -> (r: Error)
    ensures
        ({
            &&& r matches Error::Operation(info)
            &&& info.message@ == spec_screenshot_failed_message(detail@)
            &&& info.code is None
        }),
{
    Error::Operation(
        ErrorInfo { message: prefix_msg("Failed to capture screenshot: ", detail), code: None },
    )
}

/// The error a humanize reports when its script failed.
pub fn humanize_failure_error(detail: &str) -> (r: Error)
    ensures
        ({
            &&& r matches Error::Operation(info)
            &&& info.message@ == spec_humanize_failed_message(detail@)
            &&& info.code is None
        }),
{
    Error::Operation(
        ErrorInfo { message: prefix_msg("Failed to humanize tab: ", detail), code: None },
    )
}

/// The string a script result is coerced to: a string value verbatim,
/// any other value in its generic rendering, and the fixed `unit`
/// sentinel where the evaluation produced no value.
pub open spec fn spec_coerce_eval(outcome: EvalOutcome) -> Seq<char> {
    match outcome {
        EvalOutcome::NoValue => "unit"@,
        EvalOutcome::BoolValue(b) => if b {
            "true"@
        } else {
            "false"@
        },
        EvalOutcome::StringValue(s) => s@,
        EvalOutcome::OtherValue(rendered) => rendered@,
    }
}

/// Coerces a script result to the string an execute reports.
pub fn coerce_eval_outcome(outcome: EvalOutcome) -> (r: String)
    ensures
        r@ == spec_coerce_eval(outcome),
{
    match outcome {
        EvalOutcome::NoValue => "unit".to_owned(),
        EvalOutcome::BoolValue(b) => if b {
            "true".to_owned()
        } else {
            "false".to_owned()
        },
        EvalOutcome::StringValue(s) => s,
        EvalOutcome::OtherValue(rendered) => rendered,
    }
}

/// The title a click reports: the page title where the evaluation
/// produced a string, the `unknown` sentinel on any other outcome —
/// a failing title read never fails the click.
pub open spec fn spec_title_of(outcome: Result<EvalOutcome, String>) -> Seq<char> {
    match outcome {
        Ok(EvalOutcome::StringValue(s)) => s@,
        _ => "unknown"@,
    }
}

/// Best-effort page title from a script outcome.
pub fn title_from_eval(outcome: Result<EvalOutcome, String>) -> (r: String)
    ensures
        r@ == spec_title_of(outcome),
{
    match outcome {
        Ok(EvalOutcome::StringValue(s)) => s,
        _ => "unknown".to_owned(),
    }
}

/// The text an extract reports for a script outcome: the string
/// verbatim, the empty string where the element had no text, any
/// other value in its generic rendering.
pub open spec fn spec_inner_text_of(outcome: EvalOutcome) -> Seq<char> {
    match outcome {
        EvalOutcome::NoValue => ""@,
        EvalOutcome::BoolValue(b) => if b {
            "true"@
        } else {
            "false"@
        },
        EvalOutcome::StringValue(s) => s@,
        EvalOutcome::OtherValue(rendered) => rendered@,
    }
}

/// Coerces an inner-text script outcome to the reported text.
pub fn inner_text_from_eval(outcome: EvalOutcome) -> (r: String)
    ensures
        r@ == spec_inner_text_of(outcome),
{
    match outcome {
        EvalOutcome::NoValue => "".to_owned(),
        EvalOutcome::BoolValue(b) => if b {
            "true".to_owned()
        } else {
            "false".to_owned()
        },
        EvalOutcome::StringValue(s) => s,
        EvalOutcome::OtherValue(rendered) => rendered,
    }
}

/// An error a fill reports for one input: it names that input's
/// selector, whether the element was missing or the driver failed.
pub open spec fn spec_fill_error(e: Error, selector: Seq<char>, detail: Seq<char>) -> bool {
    match e {
        Error::NotFound(m) => m@ == spec_element_missing_message(selector),
        Error::Operation(info) => info.code is None && (info.message@ == spec_clear_failed_message(
            selector,
            detail,
        ) || info.message@ == spec_type_failed_message(selector, detail) || info.message@
            == spec_unexpected_clear_message(selector)),
        _ => false,
    }
}

/// Decision on one fill step's focus-and-clear outcome: the script
/// answers `true` when it found and cleared the element (typing may
/// proceed), `false` when no element matched (`NotFound` naming the
/// selector); a failed evaluation or a value the script never
/// produces is an `Operation` error naming the selector.  Fills fail
/// fast: the caller stops at the first error, and earlier fields
/// stay filled.
pub fn clear_script_outcome(outcome: Result<EvalOutcome, String>, selector: &str) -> (r: Result<
    (),
    Error,
>)
    ensures
        outcome matches Ok(o) ==> (o matches EvalOutcome::BoolValue(b) ==> (b <==> r is Ok)),
        r matches Err(e) ==> exists|d: Seq<char>| #[trigger] spec_fill_error(e, selector@, d),
{
    match outcome {
        Err(detail) => {
            let e = Error::Operation(
                ErrorInfo {
                    message: quoted_selector_msg(
                        "Failed to clear input element '",
                        selector,
                        detail.as_str(),
                    ),
                    code: None,
                },
            );
            proof {
                assert(spec_fill_error(e, selector@, detail@));
            }
            Err(e)
        },
        Ok(EvalOutcome::BoolValue(true)) => Ok(()),
        Ok(EvalOutcome::BoolValue(false)) => {
            let e = Error::NotFound(prefix_msg("Element not found: ", selector));
            proof {
                assert(spec_fill_error(e, selector@, Seq::<char>::empty()));
            }
            Err(e)
        },
        Ok(_) => {
            let mut message = "Unexpected clear result for element '".to_owned();
            message.append(selector);
            message.append("'");
            let e = Error::Operation(ErrorInfo { message, code: None });
            proof {
                assert(spec_fill_error(e, selector@, Seq::<char>::empty()));
            }
            Err(e)
        },
    }
}

/// The error a fill reports when typing into the cleared element
/// failed; it names the failing selector.
pub fn type_failure_error(selector: &str, detail: &str) -> (r: Error)
    ensures
        ({
            &&& r matches Error::Operation(info)
            &&& info.message@ == spec_type_failed_message(selector@, detail@)
            &&& info.code is None
        }),
        exists|d: Seq<char>| #[trigger] spec_fill_error(r, selector@, d),
{
    let e = Error::Operation(
        ErrorInfo {
            message: quoted_selector_msg("Failed to fill input element '", selector, detail),
            code: None,
        },
    );
    proof {
        assert(spec_fill_error(e, selector@, detail@));
    }
    e
}

} // verus!
