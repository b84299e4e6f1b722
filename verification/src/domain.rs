//! Domain vocabulary of the browser layer: CSS selectors, wait targets,
//! and the browser-facing error kinds with their constructors.

use vstd::prelude::*;
use crate::errors::{Error, ErrorInfo};

verus! {

/// A CSS selector used to locate elements in a page.
#[derive(Debug, Clone, PartialEq, Eq)]
pub struct Selector {
    pub value: String,
}

impl Selector {
    /// Wraps a selector string.
    pub fn new(value: String) -> (r: Self)
        ensures
            r.value == value,
    {
        Selector { value }
    }
}

/// What a caller may wait for after an action.
#[derive(Debug, Clone)]
pub enum WaitFor {
    /// Wait for a location matching a pattern.
    Url(String),
    /// Wait for an element matching a selector.
    Selector(Selector),
    /// Do not wait.
    Nothing,
}

/// Where in the sources an error was raised.
#[derive(Debug, Clone)]
pub struct SourceInfo {
    pub directory: &'static str,
    pub file: &'static str,
    pub line: u32,
}

/// Error kinds raised by browser operations.
#[derive(Debug, Clone)]
pub enum BrowserError {
    NotFound(String),
    NotSupported(String),
    Operation { message: String, source_info: Option<SourceInfo> },
}

/// Failure result for an absent tab or element.
pub fn not_found<T>(msg: String) -> (r: Result<T, BrowserError>)
    ensures
        r == Err::<T, BrowserError>(BrowserError::NotFound(msg)),
{
    Err(BrowserError::NotFound(msg))
}

/// Failure result for an unsupported operation.
pub fn not_supported<T>(msg: String) -> (r: Result<T, BrowserError>)
    ensures
        r == Err::<T, BrowserError>(BrowserError::NotSupported(msg)),
{
    Err(BrowserError::NotSupported(msg))
}

/// Failure result for a driver call that failed.
pub fn operation<T>(msg: String, source_info: Option<SourceInfo>) -> (r: Result<T, BrowserError>)
    ensures
        r == Err::<T, BrowserError>(BrowserError::Operation { message: msg, source_info }),
{
    Err(BrowserError::Operation { message: msg, source_info })
}

/// What a browser error maps to in the layer's own taxonomy: absence
/// stays `NotFound`, everything else is an `Operation` failure.
pub open spec fn spec_map_error(err: BrowserError) -> Error {
    match err {
        BrowserError::NotFound(msg) => Error::NotFound(msg),
        BrowserError::NotSupported(msg) => Error::Operation(
            ErrorInfo { message: msg, code: None },
        ),
        BrowserError::Operation { message, .. } => Error::Operation(
            ErrorInfo { message, code: None },
        ),
    }
}

/// Maps a browser error into the layer's error taxonomy.
pub fn map_error(err: BrowserError) -> (r: Error)
    ensures
        r == spec_map_error(err),
{
    match err {
        BrowserError::NotFound(msg) => Error::NotFound(msg),
        BrowserError::NotSupported(msg) => Error::Operation(ErrorInfo { message: msg, code: None }),
        BrowserError::Operation { message, source_info: _ } => Error::Operation(
            ErrorInfo { message, code: None },
        ),
    }
}

} // verus!
