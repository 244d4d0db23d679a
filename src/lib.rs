//! A stateless relay that fetches a vendor's player script, rewrites one
//! narrow pattern in it, and hands it back with a chosen set of headers.
//!
//! The library holds the decisions: which upstream URL a route fetches, which
//! headers pass through, when a body is patched, and what the patch does.
//! Fetching and serving stay with the caller.

pub mod error;
pub mod headers;
pub mod laws;
pub mod pattern;
pub mod route;
