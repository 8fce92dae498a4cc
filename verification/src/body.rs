//! The payload of a request.

use vstd::prelude::*;
use vstd::std_specs::convert::FromSpecImpl;

verus! {

/// What a request carries to the server. The library stores it and hands it
/// on; it never reads it.
#[derive(Debug, PartialEq, Eq)]
pub enum Body {
    /// Raw bytes.
    Bytes(Vec<u8>),
    /// Text.
    Text(String),
}

impl From<Vec<u8>> for Body {
    fn from(bytes: Vec<u8>) -> (r: Body)
        ensures
            r == Body::Bytes(bytes),
    {
        Body::Bytes(bytes)
    }
}

impl FromSpecImpl<Vec<u8>> for Body {
    open spec fn obeys_from_spec() -> bool {
        true
    }

    open spec fn from_spec(bytes: Vec<u8>) -> Body {
        Body::Bytes(bytes)
    }
}

impl From<String> for Body {
    fn from(text: String) -> (r: Body)
        ensures
            r == Body::Text(text),
    {
        Body::Text(text)
    }
}

impl FromSpecImpl<String> for Body {
    open spec fn obeys_from_spec() -> bool {
        true
    }

    open spec fn from_spec(text: String) -> Body {
        Body::Text(text)
    }
}

} // verus!
