//! Why a request could not be constructed.

use vstd::prelude::*;

verus! {

/// A failure that a builder has captured. It stays in the builder until the
/// chain is resolved.
#[derive(Clone, Copy, Debug, PartialEq, Eq, Structural)]
pub enum Error {
    /// The builder was made for a URL that could not be used.
    Url,
    /// A header name was empty, too long, or held a byte that no name may
    /// hold.
    HeaderName,
    /// A header value held a byte that no value may hold.
    HeaderValue,
    /// The header map could not take another header.
    HeaderCapacity,
}

} // verus!
