use http::Method;
use request_builder::snapshot::{fmt_request_fields, DebugField, Snapshot};
use request_builder::{Body, Error, Request, RequestBuilder};
use request_builder::request::{RequestCache, RequestMode};
use url::Url;

fn request() -> Request {
    Request::new(Method::GET, Url::parse("https://example.com/").unwrap())
}

fn names(snapshot: &Snapshot<'_>) -> Vec<&'static str> {
    snapshot.fields.iter().map(|f| f.name()).collect()
}

#[test]
fn request_shows_method_url_and_headers() {
    let mut req = request();
    *req.body_mut() = Some(Body::from(String::from("hidden")));
    *req.fetch_mode_mut() = Some(RequestMode::Cors);
    *req.cache_mode_mut() = Some(RequestCache::NoStore);
    let snapshot = req.snapshot();
    assert_eq!(snapshot.name, "Request");
    assert_eq!(names(&snapshot), vec!["method", "url", "headers"]);
    assert_eq!(snapshot.fields.len(), 3);
    match (&snapshot.fields[0], &snapshot.fields[1], &snapshot.fields[2]) {
        (DebugField::Method(m), DebugField::Url(u), DebugField::Headers(h)) => {
            assert_eq!(*m, &Method::GET);
            assert_eq!(u.as_str(), "https://example.com/");
            assert!(h.is_empty());
        }
        _ => panic!("the fields are not the method, the URL and the headers"),
    }
}

#[test]
fn valid_builder_shows_the_request_and_no_error() {
    let b = RequestBuilder::new(1u8, Ok(request())).header("X-A", "1");
    let snapshot = b.snapshot();
    assert_eq!(snapshot.name, "RequestBuilder");
    assert_eq!(names(&snapshot), vec!["method", "url", "headers"]);
    assert!(snapshot.fields.iter().all(|f| !matches!(f, DebugField::Error(_))));
    match &snapshot.fields[2] {
        DebugField::Headers(h) => assert_eq!(h.get("x-a").unwrap(), "1"),
        _ => panic!("the third field is not the headers"),
    }
}

#[test]
fn failed_builder_shows_the_error_and_no_request() {
    let b = RequestBuilder::new(1u8, Ok(request()))
        .header("X-A", "1")
        .header("X-B", "\n");
    let snapshot = b.snapshot();
    assert_eq!(snapshot.name, "RequestBuilder");
    assert_eq!(names(&snapshot), vec!["error"]);
    assert_eq!(snapshot.fields.len(), 1);
    match &snapshot.fields[0] {
        DebugField::Error(e) => assert_eq!(**e, Error::HeaderValue),
        _ => panic!("the field is not the error"),
    }
}

#[test]
fn snapshot_leaves_the_builder_usable() {
    let b = RequestBuilder::new(1u8, Ok(request()));
    assert_eq!(b.snapshot().fields.len(), 3);
    let b = b.header("bad name", "v");
    assert_eq!(b.snapshot().fields.len(), 1);
    assert!(matches!(b.send(), Err(Error::HeaderName)));
}

#[test]
fn request_fields_go_behind_what_is_there() {
    let req = request();
    let failure = Error::Url;
    let mut fields = vec![DebugField::Error(&failure)];
    fmt_request_fields(&mut fields, &req);
    let shown: Vec<&'static str> = fields.iter().map(|f| f.name()).collect();
    assert_eq!(shown, vec!["error", "method", "url", "headers"]);
}
