use http::header::{HeaderName, HeaderValue};
use http::Method;
use request_builder::request::{RequestCache, RequestMode};
use request_builder::{Body, Request};
use url::Url;

fn target() -> Url {
    Url::parse("https://example.com/items?page=2").unwrap()
}

#[test]
fn new_request_has_only_method_and_url() {
    let req = Request::new(Method::POST, target());
    assert_eq!(req.method(), &Method::POST);
    assert_eq!(req.url().as_str(), "https://example.com/items?page=2");
    assert!(req.headers().is_empty());
    assert_eq!(req.headers().len(), 0);
    assert!(req.body().is_none());
    assert!(req.fetch_mode().is_none());
    assert!(req.cache_mode().is_none());
}

#[test]
fn method_mut_replaces_the_method_and_nothing_else() {
    let mut req = Request::new(Method::GET, target());
    *req.method_mut() = Method::DELETE;
    assert_eq!(req.method(), &Method::DELETE);
    assert_eq!(req.url(), &target());
    assert!(req.headers().is_empty());
    assert!(req.body().is_none());
}

#[test]
fn url_mut_replaces_the_url_and_nothing_else() {
    let mut req = Request::new(Method::GET, target());
    *req.url_mut() = Url::parse("http://localhost:8080/").unwrap();
    assert_eq!(req.url().as_str(), "http://localhost:8080/");
    assert_eq!(req.method(), &Method::GET);
    req.url_mut().set_path("/other");
    assert_eq!(req.url().as_str(), "http://localhost:8080/other");
}

#[test]
fn headers_mut_reaches_the_map_itself() {
    let mut req = Request::new(Method::GET, target());
    req.headers_mut().insert(
        HeaderName::from_static("accept"),
        HeaderValue::from_static("text/plain"),
    );
    req.headers_mut().append(
        HeaderName::from_static("accept"),
        HeaderValue::from_static("text/html"),
    );
    let values: Vec<&[u8]> = req
        .headers()
        .get_all("accept")
        .iter()
        .map(|v| v.as_bytes())
        .collect();
    assert_eq!(values, vec![&b"text/plain"[..], &b"text/html"[..]]);
    assert_eq!(req.headers().keys_len(), 1);
    assert_eq!(req.method(), &Method::GET);
}

#[test]
fn body_mut_sets_and_clears_the_body() {
    let mut req = Request::new(Method::PUT, target());
    *req.body_mut() = Some(Body::from(vec![1u8, 2, 3]));
    assert_eq!(req.body(), Some(&Body::Bytes(vec![1, 2, 3])));
    *req.body_mut() = Some(Body::from(String::from("text")));
    assert_eq!(req.body(), Some(&Body::Text(String::from("text"))));
    *req.body_mut() = None;
    assert!(req.body().is_none());
    assert_eq!(req.method(), &Method::PUT);
}

#[test]
fn mode_accessors_set_and_clear_the_modes() {
    let mut req = Request::new(Method::GET, target());
    *req.fetch_mode_mut() = Some(RequestMode::NoCors);
    assert_eq!(req.fetch_mode(), Some(&RequestMode::NoCors));
    assert!(req.cache_mode().is_none());
    *req.cache_mode_mut() = Some(RequestCache::ForceCache);
    assert_eq!(req.cache_mode(), Some(&RequestCache::ForceCache));
    assert_eq!(req.fetch_mode(), Some(&RequestMode::NoCors));
    *req.fetch_mode_mut() = None;
    assert!(req.fetch_mode().is_none());
    assert_eq!(req.cache_mode(), Some(&RequestCache::ForceCache));
}

#[test]
fn body_converts_from_bytes_and_from_text() {
    assert_eq!(Body::from(vec![0u8, 255]), Body::Bytes(vec![0, 255]));
    assert_eq!(Body::from(String::from("a=1")), Body::Text(String::from("a=1")));
    assert_ne!(Body::from(vec![b'a']), Body::from(String::from("a")));
}
