use std::convert::Infallible;

use follow_redirect::body::BodyRepr;
use follow_redirect::policy::{Action, Attempt, Limited, Policy, Standard};
use follow_redirect::{FollowRedirect, FollowRedirectLayer, Method, Request};
use http::header::{HeaderMap, HeaderValue, ACCEPT, AUTHORIZATION};
use http::Version;

/// Follows everything, copies every body, and sends requests on over HTTPS with
/// a token.
#[derive(Clone)]
struct Upgrading;

impl Policy<Vec<u8>, Infallible> for Upgrading {
    fn redirect(&mut self, _: &Attempt<'_>) -> Result<Action, Infallible> {
        Ok(Action::Follow)
    }

    fn on_request(&mut self, request: &mut Request<Vec<u8>>) {
        request.uri = request.uri.replacen("http://", "https://", 1);
        request
            .headers
            .insert(AUTHORIZATION, HeaderValue::from_static("token"));
    }

    fn clone_body(&self, body: &Vec<u8>) -> Option<Vec<u8>> {
        Some(body.clone())
    }
}

fn post(body: &[u8]) -> Request<Vec<u8>> {
    let mut headers = HeaderMap::new();
    headers.insert(ACCEPT, HeaderValue::from_static("*/*"));
    Request {
        method: Method::Post,
        uri: "http://example.com/form".to_string(),
        version: Version::HTTP_10,
        headers,
        body: body.to_vec(),
    }
}

#[test]
fn layer_wraps_with_its_policy() {
    let layer = FollowRedirectLayer::new(Limited::new(3));
    let service = layer.layer("inner");
    assert_eq!(*service.get_ref(), "inner");
    let mut policy = service.policy;
    let attempt = Attempt {
        status: Default::default(),
        location: "http://example.com/b",
        previous: "http://example.com/a",
    };
    for _ in 0..3 {
        assert_eq!(Policy::<(), ()>::redirect(&mut policy, &attempt), Ok(Action::Follow));
    }
    assert_eq!(Policy::<(), ()>::redirect(&mut policy, &attempt), Ok(Action::Stop));
}

#[test]
fn standard_constructors_use_the_standard_policy() {
    let layer: FollowRedirectLayer<Standard> = FollowRedirectLayer::standard();
    let service: FollowRedirect<u8, Standard> = layer.layer(7u8);
    assert_eq!(service.into_inner(), 7);
    let service: FollowRedirect<u8, Standard> = FollowRedirect::standard(9u8);
    assert_eq!(*service.get_ref(), 9);
}

#[test]
fn service_layer_gives_a_layer_with_the_policy() {
    let layer = FollowRedirect::<(), Action>::layer(Action::Stop);
    assert_eq!(layer.policy, Action::Stop);
    let service = layer.layer(1u8);
    assert_eq!(service.policy, Action::Stop);
}

#[test]
fn inner_service_can_be_reached() {
    let mut service = FollowRedirect::new(vec![1u8], Action::Follow);
    service.get_mut().push(2);
    assert_eq!(service.get_ref(), &vec![1u8, 2]);
    assert_eq!(service.policy, Action::Follow);
    assert_eq!(service.into_inner(), vec![1u8, 2]);
}

#[test]
fn call_hands_the_request_on_as_it_is_under_standard() {
    let service = FollowRedirect::standard(());
    let (first, engine) = service.call::<Vec<u8>, Infallible>(post(b"a=b"), Some(3));
    assert!(matches!(first.method, Method::Post));
    assert_eq!(first.uri, "http://example.com/form");
    assert_eq!(first.version, Version::HTTP_10);
    assert_eq!(first.headers.len(), 1);
    assert_eq!(first.body, b"a=b".to_vec());
    assert!(matches!(engine.method, Method::Post));
    assert_eq!(engine.uri, "http://example.com/form");
    assert_eq!(engine.version, Version::HTTP_10);
    assert_eq!(engine.headers.get(ACCEPT).unwrap(), "*/*");
    assert!(matches!(engine.body, BodyRepr::Exhausted));
}

#[test]
fn call_notes_an_empty_body() {
    let service = FollowRedirect::standard(());
    let (_, engine) = service.call::<Vec<u8>, Infallible>(post(b""), Some(0));
    assert!(matches!(engine.body, BodyRepr::KnownEmpty));
    let (_, engine) = service.call::<Vec<u8>, Infallible>(post(b""), None);
    assert!(matches!(engine.body, BodyRepr::Exhausted));
}

#[test]
fn call_keeps_what_the_policy_made_of_the_request() {
    let service = FollowRedirect::new((), Upgrading);
    let (first, engine) = service.call::<Vec<u8>, Infallible>(post(b"a=b"), Some(3));
    assert_eq!(first.uri, "https://example.com/form");
    assert_eq!(first.headers.get(AUTHORIZATION).unwrap(), "token");
    assert_eq!(engine.uri, "https://example.com/form");
    assert_eq!(engine.headers.get(AUTHORIZATION).unwrap(), "token");
    assert_eq!(engine.headers.get(ACCEPT).unwrap(), "*/*");
    assert!(matches!(engine.body, BodyRepr::Owned(ref body) if body == b"a=b"));
}
