//! The focus-and-clear script: the selector is JSON-encoded before it
//! is spliced in, so quotes in a selector cannot break out of the
//! string literal.

use tab_registry::scripts::clear_script_for;

const SUFFIX: &str = "); if (!el) { return false; } el.focus(); if ('value' in el) { el.value = ''; } else if (el.isContentEditable) { el.textContent = ''; } return true; })()";

#[test]
fn plain_selector_is_quoted() {
    let s = clear_script_for("#login");
    let expected = format!("(() => {{ const el = document.querySelector({}{}", "\"#login\"", SUFFIX);
    assert_eq!(s, expected);
}

#[test]
fn quotes_in_a_selector_are_escaped() {
    // An unescaped splice would produce `"a[name="x"]"` and break out
    // of the literal; the JSON encoding keeps it one string.
    let s = clear_script_for("a[name=\"x\"]");
    assert!(s.contains("document.querySelector(\"a[name=\\\"x\\\"]\")"));
    assert!(!s.contains("querySelector(\"a[name=\"x\"]\")"));
}

#[test]
fn backslashes_in_a_selector_are_escaped() {
    let s = clear_script_for("a\\b");
    assert!(s.contains("querySelector(\"a\\\\b\")"));
}
