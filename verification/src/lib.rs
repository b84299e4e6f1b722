//! Tab session registry and action-coordination layer.
//!
//! A caller opens a browser tab against a URL and then issues actions
//! (click, fill, extract, execute, exists, screenshot, close) against it
//! by an opaque session id.  The registry maps ids to live driver page
//! handles; the lifecycle module validates URLs, clamps the auto-close
//! delay and registers pages under fresh ids; the stabilizer turns the
//! driver's weak navigation signal into a bounded "the page has
//! settled" decision consumed by click; the closing module removes a
//! session and combines the partial failures of cookie cleanup and
//! page close into one reported error; the actions module decides what
//! every operation reports for every driver outcome.
//!
//! All rendering and DOM work is done by an external browser driver
//! that the composition root calls; this library is generic over the
//! driver's page-handle type and decides everything around those
//! calls.  What the library itself takes on faith stands in `trusted`.

pub mod actions;
pub mod closing;
pub mod domain;
pub mod dto;
pub mod errors;
pub mod lifecycle;
pub mod registry;
pub mod scripts;
pub mod stabilize;
pub mod trusted;
