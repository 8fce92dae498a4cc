//! What a request or a builder shows of itself when it is printed for a
//! developer: a name and a list of fields. The body and the two modes are
//! left out on purpose.

use crate::error::Error;
use crate::request::Request;
use http::header::{HeaderMap, HeaderValue};
use http::Method;
use url::Url;
use vstd::prelude::*;

verus! {

/// One field of a snapshot, with the value that it shows.
pub enum DebugField<'a> {
    /// The method of a request.
    Method(&'a Method),
    /// The URL of a request.
    Url(&'a Url),
    /// The headers of a request.
    Headers(&'a HeaderMap<HeaderValue>),
    /// The failure that a builder has captured.
    Error(&'a Error),
}

impl<'a> DebugField<'a> {
    /// The name that the field is printed under.
    pub open spec fn spec_name(self) -> Seq<char> {
        match self {
            DebugField::Method(_) => "method"@,
            DebugField::Url(_) => "url"@,
            DebugField::Headers(_) => "headers"@,
            DebugField::Error(_) => "error"@,
        }
    }

    /// The name that the field is printed under.
    pub fn name(&self) -> (r: &'static str)
        ensures
            r@ == self.spec_name(),
    {
        match self {
            DebugField::Method(_) => "method",
            DebugField::Url(_) => "url",
            DebugField::Headers(_) => "headers",
            DebugField::Error(_) => "error",
        }
    }
}

/// A name and the fields to print under it, in order.
pub struct Snapshot<'a> {
    /// The name of the type that is shown.
    pub name: &'static str,
    /// The fields, in the order in which they are printed.
    pub fields: Vec<DebugField<'a>>,
}

/// The fields that a request shows: its method, its URL and its headers.
pub open spec fn request_fields(req: Request) -> Seq<DebugField<'static>> {
    seq![
        DebugField::Method(&req.method),
        DebugField::Url(&req.url),
        DebugField::Headers(&req.headers),
    ]
}

/// Add the fields that `req` shows behind those that `fields` holds.
pub fn fmt_request_fields<'a>(fields: &mut Vec<DebugField<'a>>, req: &'a Request)
    ensures
        final(fields)@ == old(fields)@ + request_fields(*req),
{
    fields.push(DebugField::Method(&req.method));
    fields.push(DebugField::Url(&req.url));
    fields.push(DebugField::Headers(&req.headers));
}

impl Request {
    /// The snapshot of a request: its method, its URL and its headers, under
    /// the name `Request`.
    pub fn snapshot(&self) -> (r: Snapshot<'_>)
        ensures
            r.name@ == "Request"@,
            r.fields@ == request_fields(*self),
    {
        let mut fields = Vec::new();
        fmt_request_fields(&mut fields, self);
        Snapshot { name: "Request", fields }
    }
}

} // verus!
