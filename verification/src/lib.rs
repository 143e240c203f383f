//! Verified core of a "fetch a URL as readable text" / "web search" tool
//! server.
//!
//! The heart of the library is the content-fetch fallback pipeline: a cheap
//! plain-HTTP attempt whose converted Markdown is judged against a
//! sufficiency threshold, with fallback to a shared headless-browser
//! rendering path for pages that need JavaScript. The pipeline's decisions
//! (per-URL state machine, lazy once-only browser initialization, readiness
//! polling, result ordering) are verified here; the unverifiable edges
//! (HTTP, the browser process, the tool-protocol transport) live with the
//! embedding application, which drives the state machines in this crate.

pub mod convert;
pub mod fetch;
pub mod readiness;
pub mod search;
