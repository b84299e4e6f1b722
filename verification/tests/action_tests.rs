//! Every action starts at `lookup_tab` (every close at `remove_tab`):
//! an id the registry never held yields `NotFound` before any driver
//! work, and the per-outcome decisions report exactly the documented
//! errors.

use tab_registry::actions::{
    clear_script_outcome, click_failure_error, element_not_found_error, eval_on_tab_failure_error,
    humanize_failure_error, lookup_tab, screenshot_failure_error, type_failure_error, EvalOutcome,
};
use tab_registry::closing::{auto_close_outcome, remove_tab, AutoCloseOutcome};
use tab_registry::errors::{Error, ErrorInfo};
use tab_registry::registry::Registry;

fn assert_tab_not_found<T: std::fmt::Debug>(r: Result<T, Error>) {
    match r {
        Err(Error::NotFound(m)) => assert_eq!(m, "tab_id nope"),
        other => panic!("expected NotFound, got {:?}", other),
    }
}

#[test]
fn lookup_unknown_id_is_not_found() {
    let reg: Registry<u64> = Registry::new();
    assert_tab_not_found(lookup_tab(&reg, "nope"));
}

#[test]
fn lookup_known_id_hands_out_the_handle() {
    let mut reg: Registry<u64> = Registry::new();
    reg.insert("t1".to_string(), 7);
    assert_eq!(lookup_tab(&reg, "t1").unwrap(), &7);
    // The entry stays: a lookup never removes.
    assert!(reg.contains("t1"));
}

#[test]
fn remove_unknown_id_is_not_found() {
    let mut reg: Registry<u64> = Registry::new();
    assert_tab_not_found(remove_tab(&mut reg, "nope"));
}

#[test]
fn close_twice_second_is_not_found() {
    // The first close that observes the id present removes it; the
    // second observes an absent id.
    let mut reg: Registry<u64> = Registry::new();
    reg.insert("t1".to_string(), 7);
    assert_eq!(remove_tab(&mut reg, "t1").unwrap(), 7);
    match remove_tab(&mut reg, "t1") {
        Err(Error::NotFound(m)) => assert_eq!(m, "tab_id t1"),
        other => panic!("expected NotFound, got {:?}", other),
    }
}

#[test]
fn auto_close_of_an_already_closed_tab_is_absorbed() {
    let e = Error::NotFound("tab_id t1".to_string());
    assert!(matches!(auto_close_outcome(Err(e)), AutoCloseOutcome::AlreadyGone));
    assert!(matches!(auto_close_outcome(Ok(())), AutoCloseOutcome::Closed));
}

#[test]
fn auto_close_failure_is_only_logged_with_its_rendering() {
    let e = Error::Operation(ErrorInfo { message: "boom".to_string(), code: None });
    match auto_close_outcome(Err(e)) {
        AutoCloseOutcome::Failed(m) => assert_eq!(m, "Operation Error: boom"),
        other => panic!("expected Failed, got {:?}", matches!(other, AutoCloseOutcome::Closed)),
    }
}

#[test]
fn clear_script_true_lets_the_fill_proceed() {
    assert!(clear_script_outcome(Ok(EvalOutcome::BoolValue(true)), "#a").is_ok());
}

#[test]
fn clear_script_false_is_not_found_naming_the_selector() {
    match clear_script_outcome(Ok(EvalOutcome::BoolValue(false)), "#missing") {
        Err(Error::NotFound(m)) => assert_eq!(m, "Element not found: #missing"),
        other => panic!("expected NotFound, got {:?}", other),
    }
}

#[test]
fn clear_script_failure_names_the_selector() {
    match clear_script_outcome(Err("socket closed".to_string()), "#a") {
        Err(Error::Operation(info)) => {
            assert_eq!(info.message, "Failed to clear input element '#a': socket closed");
            assert_eq!(info.code, None);
        },
        other => panic!("expected Operation, got {:?}", other),
    }
}

#[test]
fn clear_script_unexpected_value_names_the_selector() {
    match clear_script_outcome(Ok(EvalOutcome::NoValue), "#a") {
        Err(Error::Operation(info)) => {
            assert_eq!(info.message, "Unexpected clear result for element '#a'");
        },
        other => panic!("expected Operation, got {:?}", other),
    }
}

#[test]
fn type_failure_names_the_selector() {
    match type_failure_error("#a", "keyboard gone") {
        Error::Operation(info) => {
            assert_eq!(info.message, "Failed to fill input element '#a': keyboard gone");
        },
        other => panic!("expected Operation, got {:?}", other),
    }
}

#[test]
fn action_errors_carry_their_documented_messages() {
    match element_not_found_error("#a", "timed out") {
        Error::NotFound(m) => {
            assert_eq!(m, "Failed to find element with selector '#a': timed out")
        },
        other => panic!("expected NotFound, got {:?}", other),
    }
    match click_failure_error("#a", "detached") {
        Error::Operation(info) => {
            assert_eq!(info.message, "Failed to click element '#a': detached")
        },
        other => panic!("expected Operation, got {:?}", other),
    }
    match eval_on_tab_failure_error("bad script") {
        Error::Operation(info) => {
            assert_eq!(info.message, "Failed to evaluate JS on tab: bad script")
        },
        other => panic!("expected Operation, got {:?}", other),
    }
    match screenshot_failure_error("no surface") {
        Error::Operation(info) => {
            assert_eq!(info.message, "Failed to capture screenshot: no surface")
        },
        other => panic!("expected Operation, got {:?}", other),
    }
    match humanize_failure_error("no context") {
        Error::Operation(info) => {
            assert_eq!(info.message, "Failed to humanize tab: no context")
        },
        other => panic!("expected Operation, got {:?}", other),
    }
}
