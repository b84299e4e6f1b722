//! Scripts the layer hands to the driver.
//!
//! A caller-supplied selector is never spliced into a script as it
//! stands: it is JSON-encoded first, so that quotes in the selector
//! cannot break out of the string literal the script receives.

use vstd::prelude::*;
use crate::trusted::{json_quote, json_string_of};

verus! {

use vstd::string::StringExecFns;

/// The script that focuses the element under a (JSON-encoded)
/// selector and clears its value, handling both form controls and
/// contentEditable elements.  It answers `false` when no element
/// matches, `true` otherwise.
pub open spec fn spec_clear_script(selector: Seq<char>) -> Seq<char> {
    "(() => { const el = document.querySelector("@ + json_string_of(selector)
        + "); if (!el) { return false; } el.focus(); if ('value' in el) { el.value = ''; } else if (el.isContentEditable) { el.textContent = ''; } return true; })()"@
}

/// Builds the focus-and-clear script for a selector, JSON-encoding
/// the selector before splicing it in.
pub fn clear_script_for(selector: &str) -> (r: String)
    ensures
        r@ == spec_clear_script(selector@),
{
    let mut s = "(() => { const el = document.querySelector(".to_owned();
    let quoted = json_quote(selector);
    s.append(quoted.as_str());
    s.append(
        "); if (!el) { return false; } el.focus(); if ('value' in el) { el.value = ''; } else if (el.isContentEditable) { el.textContent = ''; } return true; })()",
    );
    s
}

} // verus!
