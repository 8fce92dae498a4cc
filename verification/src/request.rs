//! The request under construction.

use crate::body::Body;
use crate::header::{header_map_entries, new_header_map, no_entries};
use http::header::{HeaderMap, HeaderValue};
use http::Method;
use url::Url;
use vstd::prelude::*;
pub use web_sys::{RequestCache, RequestMode};

verus! {

/// `http::Method`, a request method. It is stored and handed on, never read.
#[verifier::external_type_specification]
#[verifier::external_body]
pub struct ExMethod(Method);

/// `url::Url`, a parsed URL. It is stored and handed on, never read.
#[verifier::external_type_specification]
#[verifier::external_body]
pub struct ExUrl(Url);

/// `web_sys::RequestMode`, the platform's token for how a fetch treats other
/// origins. It is stored and handed on, never read.
#[verifier::external_type_specification]
#[verifier::external_body]
pub struct ExRequestMode(RequestMode);

/// `web_sys::RequestCache`, the platform's token for how a fetch treats the
/// cache. It is stored and handed on, never read.
#[verifier::external_type_specification]
#[verifier::external_body]
pub struct ExRequestCache(RequestCache);

/// A request that a client can carry out.
///
/// The method and the URL are set when the request is made. Whoever changes
/// them, or the headers, through a `_mut` accessor answers for what is put
/// there: nothing is checked again.
pub struct Request {
    /// The request method.
    pub method: Method,
    /// Where the request goes.
    pub url: Url,
    /// The headers; none at first.
    pub headers: HeaderMap<HeaderValue>,
    /// The payload, if there is one.
    pub body: Option<Body>,
    /// How the fetch treats other origins; `None` leaves it to the client.
    pub fetch_mode: Option<RequestMode>,
    /// How the fetch treats the cache; `None` leaves it to the client.
    pub cache_mode: Option<RequestCache>,
}

impl Request {
    /// A request for `method` and `url` with no headers, no body and the
    /// client's own fetch and cache modes.
    pub fn new(method: Method, url: Url) -> (r: Request)
        ensures
            r.method == method,
            r.url == url,
            header_map_entries(r.headers) == no_entries(),
            r.body is None,
            r.fetch_mode is None,
            r.cache_mode is None,
    {
        Request {
            method,
            url,
            headers: new_header_map(),
            body: None,
            fetch_mode: None,
            cache_mode: None,
        }
    }

    /// Get the method.
    #[inline]
    pub fn method(&self) -> (r: &Method)
        ensures
            *r == self.method,
    {
        &self.method
    }

    /// Get a mutable reference to the method.
    #[inline]
    pub fn method_mut(&mut self) -> (r: &mut Method)
        ensures
            *r == old(self).method,
            *final(self) == (Request { method: *final(r), ..*old(self) }),
    {
        &mut self.method
    }

    /// Get the url.
    #[inline]
    pub fn url(&self) -> (r: &Url)
        ensures
            *r == self.url,
    {
        &self.url
    }

    /// Get a mutable reference to the url.
    #[inline]
    pub fn url_mut(&mut self) -> (r: &mut Url)
        ensures
            *r == old(self).url,
            *final(self) == (Request { url: *final(r), ..*old(self) }),
    {
        &mut self.url
    }

    /// Get the headers.
    #[inline]
    pub fn headers(&self) -> (r: &HeaderMap<HeaderValue>)
        ensures
            *r == self.headers,
    {
        &self.headers
    }

    /// Get a mutable reference to the headers.
    ///
    /// What is put into the map this way goes past the builder: a failure of
    /// the map is the caller's to handle, and the builder never learns of it.
    #[inline]
    pub fn headers_mut(&mut self) -> (r: &mut HeaderMap<HeaderValue>)
        ensures
            *r == old(self).headers,
            *final(self) == (Request { headers: *final(r), ..*old(self) }),
    {
        &mut self.headers
    }

    /// Get the body.
    #[inline]
    pub fn body(&self) -> (r: Option<&Body>)
        ensures
            match self.body {
                Some(v) => r == Some(&v),
                None => r is None,
            },
    {
        self.body.as_ref()
    }

    /// Get a mutable reference to the body.
    #[inline]
    pub fn body_mut(&mut self) -> (r: &mut Option<Body>)
        ensures
            *r == old(self).body,
            *final(self) == (Request { body: *final(r), ..*old(self) }),
    {
        &mut self.body
    }

    /// Get the fetch mode; `None` stands for the client's own.
    #[inline]
    pub fn fetch_mode(&self) -> (r: Option<&RequestMode>)
        ensures
            match self.fetch_mode {
                Some(v) => r == Some(&v),
                None => r is None,
            },
    {
        self.fetch_mode.as_ref()
    }

    /// Get a mutable reference to the fetch mode.
    #[inline]
    pub fn fetch_mode_mut(&mut self) -> (r: &mut Option<RequestMode>)
        ensures
            *r == old(self).fetch_mode,
            *final(self) == (Request { fetch_mode: *final(r), ..*old(self) }),
    {
        &mut self.fetch_mode
    }

    /// Get the cache mode; `None` stands for the client's own.
    #[inline]
    pub fn cache_mode(&self) -> (r: Option<&RequestCache>)
        ensures
            match self.cache_mode {
                Some(v) => r == Some(&v),
                None => r is None,
            },
    {
        self.cache_mode.as_ref()
    }

    /// Get a mutable reference to the cache mode.
    #[inline]
    pub fn cache_mode_mut(&mut self) -> (r: &mut Option<RequestCache>)
        ensures
            *r == old(self).cache_mode,
            *final(self) == (Request { cache_mode: *final(r), ..*old(self) }),
    {
        &mut self.cache_mode
    }
}

} // verus!
