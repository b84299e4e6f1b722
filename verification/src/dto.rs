//! Request and response shapes of the layer's operations, as plain
//! values.  The transport keeps its own serializable copies and
//! converts at the boundary.

use vstd::prelude::*;

verus! {

/// Expiration applied when an open request names none.
pub fn default_expiration_seconds() -> (r: i64)
    ensures
        r == 30,
{
    30
}

/// Open a tab against a URL, to be auto-closed after the clamped
/// expiration.
#[derive(Debug, Clone)]
pub struct OpenDto {
    pub url: String,
    pub expiration_seconds: i64,
}

/// One field to fill: where, and what to put there.
#[derive(Debug, Clone)]
pub struct InputDto {
    pub selector: String,
    pub value: String,
}

/// Fill a list of fields, in request order.
#[derive(Debug, Clone)]
pub struct FillDto {
    pub inputs: Vec<InputDto>,
}

/// Click the element under a selector.
#[derive(Debug, Clone)]
pub struct ClickDto {
    pub selector: String,
}

/// Ask whether an element exists under a selector.
#[derive(Debug, Clone)]
pub struct ExistsDto {
    pub selector: String,
}

/// Extract the inner text of the element under a selector.
#[derive(Debug, Clone)]
pub struct ExtractDto {
    pub selector: String,
}

/// Evaluate a script, against an element when a selector is given.
#[derive(Debug, Clone)]
pub struct ExecuteDto {
    pub selector: Option<String>,
    pub function: String,
}

/// Load a page (request shape of the open operation).
#[derive(Debug, Clone)]
pub struct LoadRequest {
    pub url: String,
}

/// The id a successful open hands back.
#[derive(Debug, Clone)]
pub struct LoadResponse {
    pub tab_id: String,
}

/// Close the tab under an id.
#[derive(Debug, Clone)]
pub struct CloseRequest {
    pub tab_id: String,
}

/// One posted field: selector and value.
#[derive(Debug, Clone)]
pub struct PostElement {
    pub selector: String,
    pub value: String,
}

/// Fill a list of fields of one tab.
#[derive(Debug, Clone)]
pub struct FillElementsRequest {
    pub tab_id: String,
    pub elements: Vec<PostElement>,
}

/// Uniform success/message answer.
#[derive(Debug, Clone)]
pub struct GenericResponse {
    pub success: bool,
    pub message: String,
}

/// A session and the page it owns.
#[derive(Debug, Clone)]
pub struct BrowserSession {
    pub id: String,
    pub page_id: String,
}

/// Address a page within a session.
#[derive(Debug, Clone)]
pub struct SessionRequest {
    pub session_id: String,
    pub page_id: String,
}

} // verus!
