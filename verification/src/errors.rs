//! Error taxonomy of the layer: `NotFound` for an absent tab or element,
//! `Operation` for a failed driver call, plus the rarer kinds the wider
//! service distinguishes.  Helpers build the error values that callers
//! and transports consume.

use vstd::prelude::*;

verus! {

use vstd::string::StringExecFns;

/// Message and optional machine-readable code of a failed operation.
#[derive(Debug, Clone, PartialEq, Eq)]
pub struct ErrorInfo {
    pub message: String,
    pub code: Option<String>,
}

/// Error kinds reported by the layer.  The core produces only
/// `NotFound` and `Operation`; the remaining kinds are reserved for
/// callers that need them.
#[derive(Debug, Clone, PartialEq, Eq)]
pub enum Error {
    NotFound(String),
    NotImplemented(String),
    NotSupported(String),
    Canceled(String),
    Operation(ErrorInfo),
}

impl ErrorInfo {
    /// What this error renders as: the message, with the code in
    /// parentheses when one is present.
    pub open spec fn spec_render(&self) -> Seq<char> {
        match self.code {
            Some(ref c) => self.message@ + " ("@ + c@ + ")"@,
            None => self.message@,
        }
    }

    /// One-line rendering of the error.
    pub fn render(&self) -> (r: String)
        ensures
            r@ == self.spec_render(),
    {
        match &self.code {
            Some(c) => {
                let mut s = self.message.clone();
                s.append(" (");
                s.append(c.as_str());
                s.append(")");
                s
            },
            None => self.message.clone(),
        }
    }
}

impl Error {
    /// What this error renders as: a kind prefix followed by the detail.
    pub open spec fn spec_render(&self) -> Seq<char> {
        match self {
            Error::NotFound(m) => "Not Found: "@ + m@,
            Error::NotImplemented(m) => "Not Implemented: "@ + m@,
            Error::NotSupported(m) => "Not Supported: "@ + m@,
            Error::Canceled(m) => "Canceled: "@ + m@,
            Error::Operation(info) => "Operation Error: "@ + info.spec_render(),
        }
    }

    /// One-line rendering of the error.
    pub fn render(&self) -> (r: String)
        ensures
            r@ == self.spec_render(),
    {
        match self {
            Error::NotFound(m) => {
                let mut s = "Not Found: ".to_owned();
                s.append(m.as_str());
                s
            },
            Error::NotImplemented(m) => {
                let mut s = "Not Implemented: ".to_owned();
                s.append(m.as_str());
                s
            },
            Error::NotSupported(m) => {
                let mut s = "Not Supported: ".to_owned();
                s.append(m.as_str());
                s
            },
            Error::Canceled(m) => {
                let mut s = "Canceled: ".to_owned();
                s.append(m.as_str());
                s
            },
            Error::Operation(info) => {
                let mut s = "Operation Error: ".to_owned();
                let detail = info.render();
                s.append(detail.as_str());
                s
            },
        }
    }
}

/// A message made of a fixed prefix and a detail.
pub fn prefix_msg(prefix: &str, detail: &str) -> (r: String)
    ensures
        r@ == prefix@ + detail@,
{
    let mut s = prefix.to_owned();
    s.append(detail);
    s
}

/// Builds an `Operation` error from a message alone.
pub fn operation_error(message: String) -> (r: Error)
    ensures
        r == Error::Operation(ErrorInfo { message, code: None::<String> }),
{
    Error::Operation(ErrorInfo { message, code: None })
}

/// Failure result carrying a `BROWSER_ERROR` code.
pub fn browser_error<T>(message: String) -> (r: Result<T, ErrorInfo>)
    ensures
        ({
            &&& r matches Err(e)
            &&& e.message == message
            &&& e.code matches Some(c)
            &&& c@ == "BROWSER_ERROR"@
        }),
{
    Err(ErrorInfo { message, code: Some("BROWSER_ERROR".to_owned()) })
}

/// Failure result carrying a `NOT_FOUND` code.
pub fn not_found_error<T>(message: String) -> (r: Result<T, ErrorInfo>)
    ensures
        ({
            &&& r matches Err(e)
            &&& e.message == message
            &&& e.code matches Some(c)
            &&& c@ == "NOT_FOUND"@
        }),
{
    Err(ErrorInfo { message, code: Some("NOT_FOUND".to_owned()) })
}

/// Failure result carrying a `VALIDATION_ERROR` code.
pub fn validation_error<T>(message: String) -> (r: Result<T, ErrorInfo>)
    ensures
        ({
            &&& r matches Err(e)
            &&& e.message == message
            &&& e.code matches Some(c)
            &&& c@ == "VALIDATION_ERROR"@
        }),
{
    Err(ErrorInfo { message, code: Some("VALIDATION_ERROR".to_owned()) })
}

} // verus!
