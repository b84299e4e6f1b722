//! Error constructors, renderings and the browser-error mapping.

use tab_registry::domain::{map_error, not_found, not_supported, operation, BrowserError, Selector};
use tab_registry::errors::{
    browser_error, not_found_error, operation_error, prefix_msg, validation_error, Error,
    ErrorInfo,
};

#[test]
fn selector_new_keeps_the_value() {
    let s = Selector::new("#login".to_string());
    assert_eq!(s.value, "#login");
}

#[test]
fn not_found_builds_that_variant() {
    match not_found::<(), >("gone".to_string()) {
        Err(BrowserError::NotFound(m)) => assert_eq!(m, "gone"),
        other => panic!("expected NotFound, got {:?}", other),
    }
}

#[test]
fn not_supported_builds_that_variant() {
    match not_supported::<(), >("nope".to_string()) {
        Err(BrowserError::NotSupported(m)) => assert_eq!(m, "nope"),
        other => panic!("expected NotSupported, got {:?}", other),
    }
}

#[test]
fn operation_builds_that_variant() {
    match operation::<(), >("broke".to_string(), None) {
        Err(BrowserError::Operation { message, source_info }) => {
            assert_eq!(message, "broke");
            assert!(source_info.is_none());
        },
        other => panic!("expected Operation, got {:?}", other),
    }
}

#[test]
fn map_error_keeps_not_found() {
    let e = map_error(BrowserError::NotFound("tab_id x".to_string()));
    assert_eq!(e, Error::NotFound("tab_id x".to_string()));
}

#[test]
fn map_error_folds_the_rest_into_operation() {
    let e = map_error(BrowserError::NotSupported("pdf".to_string()));
    assert_eq!(e, Error::Operation(ErrorInfo { message: "pdf".to_string(), code: None }));
    let e = map_error(BrowserError::Operation { message: "boom".to_string(), source_info: None });
    assert_eq!(e, Error::Operation(ErrorInfo { message: "boom".to_string(), code: None }));
}

#[test]
fn renderings_carry_kind_and_code() {
    assert_eq!(Error::NotFound("tab_id x".to_string()).render(), "Not Found: tab_id x");
    assert_eq!(Error::Canceled("why".to_string()).render(), "Canceled: why");
    let info = ErrorInfo { message: "m".to_string(), code: Some("C1".to_string()) };
    assert_eq!(info.render(), "m (C1)");
    assert_eq!(Error::Operation(info).render(), "Operation Error: m (C1)");
    let bare = ErrorInfo { message: "m".to_string(), code: None };
    assert_eq!(bare.render(), "m");
}

#[test]
fn coded_helpers_set_their_codes() {
    match browser_error::<()>("b".to_string()) {
        Err(e) => {
            assert_eq!(e.message, "b");
            assert_eq!(e.code.as_deref(), Some("BROWSER_ERROR"));
        },
        Ok(()) => panic!("expected an error"),
    }
    match not_found_error::<()>("n".to_string()) {
        Err(e) => assert_eq!(e.code.as_deref(), Some("NOT_FOUND")),
        Ok(()) => panic!("expected an error"),
    }
    match validation_error::<()>("v".to_string()) {
        Err(e) => assert_eq!(e.code.as_deref(), Some("VALIDATION_ERROR")),
        Ok(()) => panic!("expected an error"),
    }
}

#[test]
fn operation_error_has_no_code() {
    match operation_error("m".to_string()) {
        Error::Operation(info) => {
            assert_eq!(info.message, "m");
            assert!(info.code.is_none());
        },
        other => panic!("expected Operation, got {:?}", other),
    }
}

#[test]
fn prefix_msg_concatenates() {
    assert_eq!(prefix_msg("Invalid URL: ", "not a url"), "Invalid URL: not a url");
}
