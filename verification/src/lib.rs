//! A deferred-error builder for outbound HTTP requests.
//!
//! A [`RequestBuilder`] carries either the request under construction or the
//! first failure that a configuration step ran into. Every step after a
//! failure passes the builder through untouched, and [`RequestBuilder::send`]
//! is the one place where the outcome is looked at: it gives the failure, or
//! the finished [`Request`] with the client that is to carry it out.
//!
//! The modules [`header`] and [`chain`] hold the model that the contracts are
//! stated over, and what is proved of whole chains of calls.

pub mod body;
pub mod builder;
pub mod chain;
pub mod error;
pub mod header;
pub mod request;
pub mod snapshot;

pub use body::Body;
pub use builder::{Dispatch, RequestBuilder};
pub use error::Error;
pub use request::Request;
