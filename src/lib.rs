//! Client logic for an HR document box: session bootstrap, login,
//! paginated retrieval of the document catalog and document downloads.
//!
//! The network requests themselves are made by the caller; this library
//! decides what to request, checks every answer and keeps the protocol state.

pub mod model;
pub mod error;
pub mod catalog;
pub mod bootstrap;
pub mod client;
