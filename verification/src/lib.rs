//! Error classification for an HTTP front-end that sits between a
//! request-serving API and its backing services (a task scheduler, a blob
//! store, a document-format parser).
//!
//! Every failure that can occur while accepting a request, or that a backing
//! service reports, is wrapped into a closed taxonomy of error values and then
//! reduced, by a pure and total mapping, to one symbolic [`code::Code`] that
//! the protocol layer turns into an HTTP status.

pub mod code;
pub mod error;
pub mod laws;
pub mod leaf;
pub mod payload;
