use follow_redirect::policy::{select, Action, Attempt, Limited, Policy, Select, Standard};
use follow_redirect::{Method, Request, StatusCode};
use http::header::{HeaderMap, HeaderValue};
use http::Version;

fn attempt<'a>(location: &'a str, previous: &'a str) -> Attempt<'a> {
    Attempt {
        status: StatusCode::from_u16(302).unwrap(),
        location,
        previous,
    }
}

fn request() -> Request<String> {
    Request {
        method: Method::Get,
        uri: "http://example.com/".to_string(),
        version: Version::HTTP_11,
        headers: HeaderMap::new(),
        body: "body".to_string(),
    }
}

/// Stops everything, appends its name to a header of each request it sees, and copies
/// the bodies it is allowed to.
#[derive(Clone)]
struct Named {
    name: &'static str,
    copies: bool,
}

impl Policy<String, ()> for Named {
    fn redirect(&mut self, _: &Attempt<'_>) -> Result<Action, ()> {
        Ok(Action::Stop)
    }

    fn on_request(&mut self, request: &mut Request<String>) {
        request
            .headers
            .append("x-seen-by", HeaderValue::from_static(self.name));
    }

    fn clone_body(&self, body: &String) -> Option<String> {
        if self.copies {
            Some(format!("{}:{}", self.name, body))
        } else {
            None
        }
    }
}

#[test]
fn status_code_takes_numbers_from_100_to_999() {
    assert!(StatusCode::from_u16(99).is_none());
    assert!(StatusCode::from_u16(0).is_none());
    assert!(StatusCode::from_u16(1000).is_none());
    assert!(StatusCode::from_u16(u16::MAX).is_none());
    assert_eq!(StatusCode::from_u16(100).unwrap().as_u16(), 100);
    assert_eq!(StatusCode::from_u16(308).unwrap().as_u16(), 308);
    assert_eq!(StatusCode::from_u16(999).unwrap().as_u16(), 999);
}

#[test]
fn status_code_defaults_to_200() {
    assert_eq!(StatusCode::default().as_u16(), 200);
    assert_eq!(StatusCode::default(), StatusCode::from_u16(200).unwrap());
}

#[test]
fn method_clones_to_itself() {
    assert!(matches!(Method::Post.clone(), Method::Post));
    assert!(matches!(Method::Head.clone(), Method::Head));
    assert!(
        matches!(Method::Extension("PURGE".to_string()).clone(), Method::Extension(name) if name == "PURGE")
    );
}

#[test]
fn attempt_hands_out_its_parts() {
    let attempt = attempt("http://example.com/new", "http://example.com/old");
    assert_eq!(attempt.status().as_u16(), 302);
    assert_eq!(attempt.location(), "http://example.com/new");
    assert_eq!(attempt.previous(), "http://example.com/old");
}

#[test]
fn action_tells_follow_from_stop() {
    assert!(Action::Follow.is_follow());
    assert!(!Action::Follow.is_stop());
    assert!(Action::Stop.is_stop());
    assert!(!Action::Stop.is_follow());
}

#[test]
fn action_is_the_policy_that_decides_for_it() {
    let attempt = attempt("http://example.com/new", "http://example.com/old");
    let mut follow = Action::Follow;
    let mut stop = Action::Stop;
    for _ in 0..3 {
        assert_eq!(Policy::<(), ()>::redirect(&mut follow, &attempt), Ok(Action::Follow));
        assert_eq!(Policy::<(), ()>::redirect(&mut stop, &attempt), Ok(Action::Stop));
    }
}

#[test]
fn result_is_the_policy_that_answers_with_it() {
    let attempt = attempt("http://example.com/new", "http://example.com/old");
    let mut failing: Result<Action, String> = Err("refused".to_string());
    assert_eq!(
        Policy::<(), String>::redirect(&mut failing, &attempt),
        Err("refused".to_string())
    );
    assert_eq!(
        Policy::<(), String>::redirect(&mut failing, &attempt),
        Err("refused".to_string())
    );
    let mut following: Result<Action, String> = Ok(Action::Follow);
    assert_eq!(Policy::<(), String>::redirect(&mut following, &attempt), Ok(Action::Follow));
}

#[test]
fn standard_follows_everything() {
    let mut policy = Standard::default();
    let same = attempt("http://example.com/loop", "http://example.com/loop");
    let other = attempt("https://elsewhere.example/", "http://example.com/loop");
    for _ in 0..100 {
        assert_eq!(Policy::<(), ()>::redirect(&mut policy, &same), Ok(Action::Follow));
        assert_eq!(Policy::<(), ()>::redirect(&mut policy, &other), Ok(Action::Follow));
    }
}

#[test]
fn standard_leaves_requests_alone_and_copies_nothing() {
    let mut policy = Standard::default();
    let mut request = request();
    Policy::<String, ()>::on_request(&mut policy, &mut request);
    assert!(matches!(request.method, Method::Get));
    assert_eq!(request.uri, "http://example.com/");
    assert!(request.headers.is_empty());
    assert_eq!(request.body, "body");
    assert_eq!(Policy::<String, ()>::clone_body(&policy, &request.body), None);
}

#[test]
fn limited_follows_exactly_as_often_as_told() {
    let attempt = attempt("http://example.com/new", "http://example.com/old");
    for max in [0usize, 1, 2, 7] {
        let mut policy = Limited::new(max);
        for _ in 0..max {
            assert_eq!(Policy::<(), ()>::redirect(&mut policy, &attempt), Ok(Action::Follow));
        }
        for _ in 0..3 {
            assert_eq!(Policy::<(), ()>::redirect(&mut policy, &attempt), Ok(Action::Stop));
        }
    }
}

#[test]
fn limited_defaults_to_twenty() {
    let attempt = attempt("http://example.com/new", "http://example.com/old");
    let mut policy = Limited::default();
    for _ in 0..20 {
        assert_eq!(Policy::<(), ()>::redirect(&mut policy, &attempt), Ok(Action::Follow));
    }
    assert_eq!(Policy::<(), ()>::redirect(&mut policy, &attempt), Ok(Action::Stop));
}

#[test]
fn a_clone_of_a_limit_counts_for_itself() {
    let attempt = attempt("http://example.com/new", "http://example.com/old");
    let template = Limited::new(1);
    let mut first = template.clone();
    assert_eq!(Policy::<(), ()>::redirect(&mut first, &attempt), Ok(Action::Follow));
    assert_eq!(Policy::<(), ()>::redirect(&mut first, &attempt), Ok(Action::Stop));
    let mut second = template.clone();
    assert_eq!(Policy::<(), ()>::redirect(&mut second, &attempt), Ok(Action::Follow));
}

#[test]
fn select_falls_back_when_the_first_fails() {
    let attempt = attempt("http://example.com/new", "http://example.com/old");
    let mut policy = select::<_, _, (), &str>(Err("first"), Action::Follow);
    assert_eq!(Policy::<(), &str>::redirect(&mut policy, &attempt), Ok(Action::Follow));
    let mut policy = select::<_, _, (), &str>(Err("first"), Err("second"));
    assert_eq!(Policy::<(), &str>::redirect(&mut policy, &attempt), Err("second"));
    let mut policy = select::<_, _, (), &str>(Action::Stop, Err("second"));
    assert_eq!(Policy::<(), &str>::redirect(&mut policy, &attempt), Err("second"));
    let mut policy = select::<_, _, (), &str>(Action::Follow, Err("second"));
    assert_eq!(Policy::<(), &str>::redirect(&mut policy, &attempt), Ok(Action::Follow));
}

#[test]
fn select_spends_the_second_limit_after_the_first() {
    let attempt = attempt("http://example.com/new", "http://example.com/old");
    let mut policy = select::<_, _, (), ()>(Limited::new(2), Limited::new(1));
    for _ in 0..3 {
        assert_eq!(Policy::<(), ()>::redirect(&mut policy, &attempt), Ok(Action::Follow));
    }
    assert_eq!(Policy::<(), ()>::redirect(&mut policy, &attempt), Ok(Action::Stop));
}

#[test]
fn select_nests() {
    let attempt = attempt("http://example.com/new", "http://example.com/old");
    let inner = select::<_, _, (), ()>(Action::Stop, Limited::new(1));
    let mut policy = select::<_, _, (), ()>(Action::Stop, inner);
    assert_eq!(Policy::<(), ()>::redirect(&mut policy, &attempt), Ok(Action::Follow));
    assert_eq!(Policy::<(), ()>::redirect(&mut policy, &attempt), Ok(Action::Stop));
}

#[test]
fn select_shows_requests_to_both_in_turn() {
    let a = Named { name: "a", copies: false };
    let b = Named { name: "b", copies: false };
    let mut policy: Select<Named, Named> = select::<_, _, String, ()>(a, b);
    let mut request = request();
    policy.on_request(&mut request);
    let seen: Vec<_> = request.headers.get_all("x-seen-by").iter().collect();
    assert_eq!(seen, vec!["a", "b"]);
}

#[test]
fn select_copies_with_the_first_that_can() {
    let body = "body".to_string();
    let both = select::<_, _, String, ()>(
        Named { name: "a", copies: true },
        Named { name: "b", copies: true },
    );
    assert_eq!(both.clone_body(&body), Some("a:body".to_string()));
    let second = select::<_, _, String, ()>(
        Named { name: "a", copies: false },
        Named { name: "b", copies: true },
    );
    assert_eq!(second.clone_body(&body), Some("b:body".to_string()));
    let neither = select::<_, _, String, ()>(
        Named { name: "a", copies: false },
        Named { name: "b", copies: false },
    );
    assert_eq!(neither.clone_body(&body), None);
}

#[test]
fn a_borrowed_policy_is_the_policy() {
    let attempt = attempt("http://example.com/new", "http://example.com/old");
    let mut limit = Limited::new(1);
    {
        let mut borrowed = &mut limit;
        assert_eq!(Policy::<(), ()>::redirect(&mut borrowed, &attempt), Ok(Action::Follow));
    }
    assert_eq!(Policy::<(), ()>::redirect(&mut limit, &attempt), Ok(Action::Stop));

    let mut named = Named { name: "n", copies: true };
    let mut borrowed = &mut named;
    let mut request = request();
    Policy::<String, ()>::on_request(&mut borrowed, &mut request);
    assert_eq!(request.headers.get("x-seen-by").unwrap(), "n");
    assert_eq!(
        Policy::<String, ()>::clone_body(&borrowed, &"b".to_string()),
        Some("n:b".to_string())
    );
}
