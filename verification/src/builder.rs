//! The builder: a chain of configuration steps over a request that may
//! already have failed.

use crate::body::Body;
use crate::error::Error;
use crate::header::{
    appended, has_room, header_map_entries, is_header_name, is_header_value, normalized_name,
    parse_header_name, parse_header_value, try_append,
};
use crate::request::Request;
use crate::snapshot::{fmt_request_fields, request_fields, DebugField, Snapshot};
use vstd::prelude::*;
use vstd::std_specs::convert::IntoSpec;
use vstd::string::StringSliceAdditionalSpecFns;
use web_sys::{RequestCache, RequestMode};

verus! {

/// What a builder holds besides its client: the request so far, or the first
/// failure.
pub type Outcome = Result<Request, Error>;

/// A builder to construct the properties of a [`Request`].
///
/// `C` is the handle of the client that will carry the request out. The
/// builder stores it and hands it back from [`RequestBuilder::send`].
pub struct RequestBuilder<C> {
    client: C,
    request: Outcome,
}

/// A request that passed construction, with the client that is to carry it
/// out.
pub struct Dispatch<C> {
    /// The client that the builder was made with.
    pub client: C,
    /// The request as the chain built it.
    pub request: Request,
}

/// `before` after its body was set to `body`: a failure stays as it is.
pub open spec fn with_body(before: Outcome, body: Body) -> Outcome {
    match before {
        Ok(req) => Ok(Request { body: Some(body), ..req }),
        Err(e) => Err(e),
    }
}

/// `before` after its fetch mode was set to `mode`: a failure stays as it is.
pub open spec fn with_fetch_mode(before: Outcome, mode: RequestMode) -> Outcome {
    match before {
        Ok(req) => Ok(Request { fetch_mode: Some(mode), ..req }),
        Err(e) => Err(e),
    }
}

/// `before` after its cache mode was set to `mode`: a failure stays as it is.
pub open spec fn with_cache_mode(before: Outcome, mode: RequestCache) -> Outcome {
    match before {
        Ok(req) => Ok(Request { cache_mode: Some(mode), ..req }),
        Err(e) => Err(e),
    }
}

/// `after` is `req` but for its headers, which hold `value` behind the values
/// that the name `key`, in lower case, had in `req`.
pub open spec fn header_added(req: Request, key: Seq<u8>, value: Seq<u8>, after: Request) -> bool {
    &&& after.method == req.method
    &&& after.url == req.url
    &&& after.body == req.body
    &&& after.fetch_mode == req.fetch_mode
    &&& after.cache_mode == req.cache_mode
    &&& header_map_entries(after.headers) == appended(
        header_map_entries(req.headers),
        normalized_name(key),
        value,
    )
}

/// What adding the header `key: value` may make of `before`.
///
/// A failure stays as it is, and neither `key` nor `value` is looked at. On a
/// request, a bad name fails before the value is looked at, and a bad value
/// fails next. A good header is added, unless the header map refuses it,
/// which a map that [`has_room`] never does.
pub open spec fn header_step(before: Outcome, key: Seq<u8>, value: Seq<u8>, after: Outcome) -> bool {
    match before {
        Err(e) => after == before,
        Ok(req) => if !is_header_name(key) {
            after == Err::<Request, Error>(Error::HeaderName)
        } else if !is_header_value(value) {
            after == Err::<Request, Error>(Error::HeaderValue)
        } else {
            match after {
                Ok(next) => header_added(req, key, value, next),
                Err(e) => e == Error::HeaderCapacity && !has_room(header_map_entries(req.headers)),
            }
        },
    }
}

/// What resolving a builder with `client` and `outcome` gives.
pub open spec fn resolved<C>(client: C, outcome: Outcome) -> Result<Dispatch<C>, Error> {
    match outcome {
        Ok(request) => Ok(Dispatch { client, request }),
        Err(e) => Err(e),
    }
}

impl<C> RequestBuilder<C> {
    /// The client that the builder was made with.
    pub closed spec fn client(self) -> C {
        self.client
    }

    /// The request so far, or the failure that the builder has captured.
    pub closed spec fn outcome(self) -> Outcome {
        self.request
    }

    /// A builder for `client` that starts from `request`, which may be a
    /// failure already.
    pub fn new(client: C, request: Result<Request, Error>) -> (r: RequestBuilder<C>)
        ensures
            r.client() == client,
            r.outcome() == request,
    {
        RequestBuilder { client, request }
    }

    /// Set the request body.
    ///
    /// On a failed builder nothing happens, and `body` is not converted.
    pub fn body<T: Into<Body>>(self, body: T) -> (r: RequestBuilder<C>)
        ensures
            r.client() == self.client(),
            self.outcome() is Err ==> r.outcome() == self.outcome(),
            exists|b: Body| r.outcome() == with_body(self.outcome(), b),
            T::obeys_into_spec() ==> r.outcome() == with_body(self.outcome(), body.into_spec()),
    {
        let mut builder = self;
        let ghost mut installed: Body = arbitrary();
        if let Ok(req) = &mut builder.request {
            let converted: Body = body.into();
            proof {
                installed = converted;
            }
            req.body = Some(converted);
        }
        assert(builder.outcome() == with_body(self.outcome(), installed));
        builder
    }

    /// Add a header to this request. A name that the request has already
    /// keeps its values, and gets `value` behind them.
    ///
    /// On a failed builder nothing happens, and neither `key` nor `value` is
    /// checked. A name or a value that is refused turns the builder into a
    /// failed one, the name being checked first. So does a header map that
    /// cannot take another header: the builder captures what
    /// `HeaderMap::append` would panic on.
    pub fn header(self, key: &str, value: &str) -> (r: RequestBuilder<C>)
        ensures
            r.client() == self.client(),
            header_step(self.outcome(), key.spec_bytes(), value.spec_bytes(), r.outcome()),
    {
        let mut builder = self;
        let mut error = None;
        if let Ok(req) = &mut builder.request {
            match parse_header_name(key) {
                Ok(name) => match parse_header_value(value) {
                    Ok(value) => {
                        if try_append(req.headers_mut(), name, value).is_err() {
                            error = Some(Error::HeaderCapacity);
                        }
                    },
                    Err(_) => error = Some(Error::HeaderValue),
                },
                Err(_) => error = Some(Error::HeaderName),
            }
        }
        if let Some(err) = error {
            builder.request = Err(err);
        }
        builder
    }

    /// Set the fetch mode of this request; a mode set before is replaced.
    ///
    /// On a failed builder nothing happens.
    pub fn fetch_mode(self, mode: RequestMode) -> (r: RequestBuilder<C>)
        ensures
            r.client() == self.client(),
            r.outcome() == with_fetch_mode(self.outcome(), mode),
    {
        let mut builder = self;
        if let Ok(req) = &mut builder.request {
            req.fetch_mode = Some(mode);
        }
        builder
    }

    /// Set the cache mode of this request; a mode set before is replaced.
    ///
    /// On a failed builder nothing happens.
    pub fn cache_mode(self, mode: RequestCache) -> (r: RequestBuilder<C>)
        ensures
            r.client() == self.client(),
            r.outcome() == with_cache_mode(self.outcome(), mode),
    {
        let mut builder = self;
        if let Ok(req) = &mut builder.request {
            req.cache_mode = Some(mode);
        }
        builder
    }

    /// The snapshot of a builder, under the name `RequestBuilder`: the fields
    /// of its request, or, where it has failed, the failure alone. A failed
    /// builder shows no field of a request, and no other shows an error.
    pub fn snapshot(&self) -> (r: Snapshot<'_>)
        ensures
            r.name@ == "RequestBuilder"@,
            match self.outcome() {
                Ok(req) => r.fields@ == request_fields(req),
                Err(e) => r.fields@ == seq![DebugField::Error(&e)],
            },
            self.outcome() is Err ==> forall|i: int|
                0 <= i < r.fields@.len() ==> (#[trigger] r.fields@[i]) is Error,
            self.outcome() is Ok ==> forall|i: int|
                0 <= i < r.fields@.len() ==> !((#[trigger] r.fields@[i]) is Error),
    {
        let mut fields = Vec::new();
        match &self.request {
            Ok(req) => fmt_request_fields(&mut fields, req),
            Err(err) => fields.push(DebugField::Error(err)),
        }
        Snapshot { name: "RequestBuilder", fields }
    }

    /// Resolve the chain. A failed builder gives its failure, and there is
    /// nothing to dispatch. Any other gives the request as it was built, with
    /// the client that is to carry it out.
    ///
    /// The builder is used up: there is no second dispatch of one chain.
    pub fn send(self) -> (r: Result<Dispatch<C>, Error>)
        ensures
            r == resolved(self.client(), self.outcome()),
    {
        let request = self.request?;
        Ok(Dispatch { client: self.client, request })
    }
}

} // verus!
