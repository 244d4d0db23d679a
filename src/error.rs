//! The ways a request can fail.

use vstd::prelude::*;

verus! {

/// A failure that ends one request with a server error.
#[derive(Debug, Clone, Copy, PartialEq, Eq, Structural)]
pub enum RelayError {
    /// The upstream host could not be reached (connection, timeout, DNS, TLS).
    UpstreamUnreachable,
    /// The upstream body could not be read as text.
    BodyDecode,
    /// A route's pattern is not a valid regular expression.
    PatchPattern,
}

impl RelayError {
    /// The status a caller receives for this failure: always a generic
    /// server error.
    pub fn status(&self) -> (r: u16)
        ensures
            r == 500,
    {
        500
    }
}

} // verus!
