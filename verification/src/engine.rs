//! The state machine that follows redirections.
//!
//! An [`Engine`] belongs to one call. It holds what the next request is made from:
//! the method, the target of the last request, the version and the headers of the
//! first, and the body where one is at hand. Each response is handed to
//! [`Engine::on_response`], which ends the call or gives the request to send next.

use crate::body::{refilled, BodyRepr};
use crate::message::{
    clone_headers, header_values, location_of, location_value, Method, Request, StatusCode,
};
use crate::policy::{may_prepare, Action, Attempt, AttemptView, Policy, Standard};
use crate::uri::{decode_location, resolve_uri, resolved_location, utf8_text};
use http::header::{HeaderMap, HeaderValue};
use http::Version;
use vstd::prelude::*;

verus! {

/// The method with which a request made with `method` is repeated after a response of
/// `status`: `GET` after `301` and `302` where it was `POST`, and after `303` unless it
/// was `HEAD`; else the same.
pub open spec fn redirected_method(status: StatusCode, method: Method) -> Method {
    if (status.code() == 301 || status.code() == 302) && method == Method::Post {
        Method::Get
    } else if status.code() == 303 && method != Method::Head {
        Method::Get
    } else {
        method
    }
}

/// Whether a request made with `method` is repeated without its body after a response
/// of `status`: after `301` and `302` where it was `POST`, and after `303`.
pub open spec fn drops_body(status: StatusCode, method: Method) -> bool {
    ((status.code() == 301 || status.code() == 302) && method == Method::Post) || status.code()
        == 303
}

/// How a redirection changes the request that is repeated.
#[derive(Debug)]
pub struct Rewrite {
    /// The method of the next request.
    pub method: Method,
    /// Whether the next request has an empty body.
    pub drop_body: bool,
}

/// What a response of `status` asks of a request made with `method`: nothing, where the
/// status is none of `301`, `302`, `303`, `307` and `308`.
pub fn classify(status: StatusCode, method: &Method) -> (rewrite: Option<Rewrite>)
    ensures
        rewrite.is_some() == status.is_redirect(),
        rewrite matches Some(r) ==> r.method == redirected_method(status, *method) && r.drop_body
            == drops_body(status, *method),
{
    let code = status.as_u16();
    if code == 301 || code == 302 {
        match method {
            Method::Post => Some(Rewrite { method: Method::Get, drop_body: true }),
            _ => Some(Rewrite { method: method.clone(), drop_body: false }),
        }
    } else if code == 303 {
        match method {
            Method::Head => Some(Rewrite { method: Method::Head, drop_body: true }),
            _ => Some(Rewrite { method: Method::Get, drop_body: true }),
        }
    } else if code == 307 || code == 308 {
        Some(Rewrite { method: method.clone(), drop_body: false })
    } else {
        None
    }
}

/// What one call holds between a request and its response.
#[derive(Debug)]
pub struct Engine<B, P> {
    /// The policy of this call.
    pub policy: P,
    /// The method of the last request.
    pub method: Method,
    /// The target of the last request.
    pub uri: String,
    /// The version of the first request, and of each one after it.
    pub version: Version,
    /// The headers of the first request, from which those of each one after it are copied.
    pub headers: HeaderMap<HeaderValue>,
    /// The body for a further request.
    pub body: BodyRepr<B>,
}

/// What a response leads to.
#[derive(Debug)]
pub enum Step<B, P> {
    /// The response is the final one: it goes to the caller as it is.
    Complete,
    /// The redirection is followed: the request is to be sent, and its response handed
    /// to the engine.
    Reissue(Engine<B, P>, Request<B>),
}

/// What taking a body from `held` may give, and what is held after.
pub open spec fn takes<B: Default>(held: BodyRepr<B>, body: B, rest: BodyRepr<B>) -> bool {
    match held {
        BodyRepr::Owned(copy) => body == copy && rest == BodyRepr::<B>::Exhausted,
        BodyRepr::KnownEmpty => call_ensures(B::default, (), body) && rest == BodyRepr::<
            B,
        >::KnownEmpty,
        BodyRepr::Exhausted => false,
    }
}

/// What [`Engine::reissue`] may make of `before`: the engine `after` and the request
/// `request`, which goes to `location` with `body`.
pub open spec fn reissued<B, E, P: Policy<B, E>>(
    before: Engine<B, P>,
    location: Seq<char>,
    body: B,
    exact_size: Option<u64>,
    after: Engine<B, P>,
    request: Request<B>,
) -> bool {
    &&& after.method == before.method
    &&& after.uri@ == location
    &&& after.version == before.version
    &&& after.headers == before.headers
    &&& match before.body {
        BodyRepr::Exhausted => refilled::<B, E, P>(before.policy, body, exact_size, after.body),
        _ => after.body == before.body,
    }
    &&& exists|fresh: Request<B>|
        #![trigger may_prepare::<B, E, P>(before.policy, fresh, after.policy, request)]
        {
            &&& fresh.method == before.method
            &&& fresh.uri@ == location
            &&& fresh.version == before.version
            &&& header_values(fresh.headers) == header_values(before.headers)
            &&& fresh.body == body
            &&& may_prepare::<B, E, P>(before.policy, fresh, after.policy, request)
        }
}

impl<B, P> Engine<B, P> {
    /// The target that a response with `headers` names, resolved against the target
    /// of the last request; nothing where it has no `Location` header, where that is
    /// not UTF-8, or where it cannot be resolved.
    pub open spec fn target(self, headers: HeaderMap<HeaderValue>) -> Option<Seq<char>> {
        match location_of(headers) {
            Some(bytes) => match utf8_text(bytes) {
                Some(text) => resolved_location(text, self.uri@),
                None => None,
            },
            None => None,
        }
    }

    /// Whether a response asks for a redirection that the engine can make: its status
    /// is one of the five, a body for the next request is at hand or none is needed,
    /// and it names a target.
    pub open spec fn redirects(self, status: StatusCode, headers: HeaderMap<HeaderValue>) -> bool {
        &&& status.is_redirect()
        &&& (drops_body(status, self.method) || !(self.body is Exhausted))
        &&& self.target(headers) is Some
    }

    /// What the policy is asked about, where [`Engine::redirects`] holds.
    pub open spec fn attempt(
        self,
        status: StatusCode,
        headers: HeaderMap<HeaderValue>,
    ) -> AttemptView {
        AttemptView { status, location: self.target(headers).unwrap(), previous: self.uri@ }
    }

    /// The body from which the next request takes its own.
    pub open spec fn source(self, status: StatusCode) -> BodyRepr<B> {
        if drops_body(status, self.method) {
            BodyRepr::KnownEmpty
        } else {
            self.body
        }
    }
}

impl<B: Default, P> Engine<B, P> {
    /// Whether the policy, asked about the redirection that a response asks for, may
    /// answer `decision`.
    pub open spec fn decided<E>(
        self,
        status: StatusCode,
        headers: HeaderMap<HeaderValue>,
        decision: Result<Action, E>,
    ) -> bool where P: Policy<B, E> {
        exists|next: P| #[trigger]
            P::decides(self.policy, self.attempt(status, headers), next, decision)
    }

    /// Whether following the redirection that a response asks for may give the engine
    /// `after` and the request `request`: the policy has answered [`Action::Follow`],
    /// a body was taken, and the request was made by [`Engine::reissue`] from the
    /// rewritten method and the resolved target.
    pub open spec fn followed<E>(
        self,
        status: StatusCode,
        headers: HeaderMap<HeaderValue>,
        held_size: Option<u64>,
        after: Engine<B, P>,
        request: Request<B>,
    ) -> bool where P: Policy<B, E> {
        exists|next: P, body: B, rest: BodyRepr<B>|
            #![trigger reissued::<B, E, P>(
                Engine {
                    policy: next,
                    method: redirected_method(status, self.method),
                    uri: self.uri,
                    version: self.version,
                    headers: self.headers,
                    body: rest,
                },
                self.target(headers).unwrap(),
                body,
                held_size,
                after,
                request,
            )]
            {
                &&& P::decides(
                    self.policy,
                    self.attempt(status, headers),
                    next,
                    Ok::<Action, E>(Action::Follow),
                )
                &&& takes(self.source(status), body, rest)
                &&& reissued::<B, E, P>(
                    Engine {
                        policy: next,
                        method: redirected_method(status, self.method),
                        uri: self.uri,
                        version: self.version,
                        headers: self.headers,
                        body: rest,
                    },
                    self.target(headers).unwrap(),
                    body,
                    held_size,
                    after,
                    request,
                )
            }
    }

    /// What [`Engine::on_response`] may answer to a response. Where the response asks
    /// for no redirection that can be made, it is final. Else the answer is the
    /// policy's: its error, the end of the call where it stops, or the next request
    /// where it follows.
    pub open spec fn answers<E>(
        self,
        status: StatusCode,
        headers: HeaderMap<HeaderValue>,
        held_size: Option<u64>,
        outcome: Result<Step<B, P>, E>,
    ) -> bool where P: Policy<B, E> {
        if !self.redirects(status, headers) {
            outcome == Ok::<Step<B, P>, E>(Step::Complete)
        } else {
            match outcome {
                Err(error) => self.decided::<E>(status, headers, Err(error)),
                Ok(Step::Complete) => self.decided::<E>(status, headers, Ok(Action::Stop)),
                Ok(Step::Reissue(after, request)) => self.followed::<E>(
                    status,
                    headers,
                    held_size,
                    after,
                    request,
                ),
            }
        }
    }

    /// Makes the next request, to `location` and with `body`, and the engine that
    /// awaits its response. The request has the engine's method and version and a copy
    /// of its headers, and the policy has seen it. Where the engine holds no body,
    /// it tries to get one from `body`, whose exact size is `exact_size` where that is
    /// known.
    pub fn reissue<E>(self, location: String, body: B, exact_size: Option<u64>) -> (next: (
        Engine<B, P>,
        Request<B>,
    )) where P: Policy<B, E>
        ensures
            reissued::<B, E, P>(self, location@, body, exact_size, next.0, next.1),
            exists|lent: &mut P, shown: &mut Request<B>|
                {
                    &&& mut_ref_current(lent) == self.policy
                    &&& mut_ref_future(lent) == next.0.policy
                    &&& mut_ref_current(shown).method == self.method
                    &&& mut_ref_current(shown).uri@ == location@
                    &&& mut_ref_current(shown).version == self.version
                    &&& header_values(mut_ref_current(shown).headers) == header_values(
                        self.headers,
                    )
                    &&& mut_ref_current(shown).body == body
                    &&& mut_ref_future(shown) == next.1
                    &&& #[trigger] call_ensures(P::on_request, (lent, shown), ())
                },
    {
        let mut engine = self;
        engine.body.try_clone_from(&body, exact_size, &engine.policy);
        let mut request = Request {
            method: engine.method.clone(),
            uri: location.clone(),
            version: engine.version,
            headers: clone_headers(&engine.headers),
            body,
        };
        engine.uri = location;
        let ghost fresh = request;
        engine.policy.on_request(&mut request);
        assert(may_prepare::<B, E, P>(self.policy, fresh, engine.policy, request));
        (engine, request)
    }

    /// Takes the response to the last request, by its status and headers, and says
    /// what follows. `held_size` is the exact size of the body that the engine holds,
    /// where it holds one and its size is known.
    ///
    /// A response that asks for no redirection that can be made is final. For any
    /// other the policy is asked: its error ends the call, with [`Action::Stop`] the
    /// response is final, with [`Action::Follow`] the next request is made.
    pub fn on_response<E>(
        self,
        status: StatusCode,
        headers: &HeaderMap<HeaderValue>,
        held_size: Option<u64>,
    ) -> (outcome: Result<Step<B, P>, E>) where P: Policy<B, E>
        ensures
            self.answers::<E>(status, *headers, held_size, outcome),
            outcome matches Ok(Step::Reissue(after, request)) ==> exists|
                lent: &mut P,
                shown: &mut Request<B>,
            |
                {
                    &&& P::decides(
                        self.policy,
                        self.attempt(status, *headers),
                        mut_ref_current(lent),
                        Ok::<Action, E>(Action::Follow),
                    )
                    &&& mut_ref_future(lent) == after.policy
                    &&& mut_ref_current(shown).method == redirected_method(status, self.method)
                    &&& mut_ref_current(shown).uri@ == self.target(*headers).unwrap()
                    &&& mut_ref_current(shown).version == self.version
                    &&& header_values(mut_ref_current(shown).headers) == header_values(
                        self.headers,
                    )
                    &&& match self.source(status) {
                        BodyRepr::Owned(held) => mut_ref_current(shown).body == held && refilled::<
                            B,
                            E,
                            P,
                        >(mut_ref_current(lent), held, held_size, after.body),
                        BodyRepr::KnownEmpty => call_ensures(
                            B::default,
                            (),
                            mut_ref_current(shown).body,
                        ) && after.body == BodyRepr::<B>::KnownEmpty,
                        BodyRepr::Exhausted => false,
                    }
                    &&& mut_ref_future(shown) == request
                    &&& #[trigger] call_ensures(P::on_request, (lent, shown), ())
                },
    {
        let mut engine = self;
        let rewrite = match classify(status, &engine.method) {
            Some(rewrite) => rewrite,
            None => return Ok(Step::Complete),
        };
        engine.method = rewrite.method;
        if rewrite.drop_body {
            engine.body = BodyRepr::KnownEmpty;
        }
        let body = match engine.body.take() {
            Some(body) => body,
            None => return Ok(Step::Complete),
        };
        let bytes = match location_value(headers) {
            Some(bytes) => bytes,
            None => return Ok(Step::Complete),
        };
        let relative = match decode_location(bytes) {
            Some(relative) => relative,
            None => return Ok(Step::Complete),
        };
        let location = match resolve_uri(relative, engine.uri.as_str()) {
            Some(location) => location,
            None => return Ok(Step::Complete),
        };
        let attempt = Attempt {
            status,
            location: location.as_str(),
            previous: engine.uri.as_str(),
        };
        assert(attempt@ == self.attempt(status, *headers));
        let decision = engine.policy.redirect(&attempt);
        let ghost decided = engine.policy;
        match decision {
            Err(error) => {
                assert(self.decided::<E>(status, *headers, Err(error)));
                Err(error)
            },
            Ok(Action::Stop) => {
                assert(self.decided::<E>(status, *headers, Ok(Action::Stop)));
                Ok(Step::Complete)
            },
            Ok(Action::Follow) => {
                let ghost rest = engine.body;
                let ghost ready = engine;
                let (engine, request) = engine.reissue(location, body, held_size);
                assert(ready == Engine {
                    policy: decided,
                    method: redirected_method(status, self.method),
                    uri: self.uri,
                    version: self.version,
                    headers: self.headers,
                    body: rest,
                });
                assert(self.followed::<E>(status, *headers, held_size, engine, request));
                Ok(Step::Reissue(engine, request))
            },
        }
    }
}

/// Whether `request` is what the policy, left as `after`, has made of a request to `uri`
/// with the method `method` and the body `body`.
pub open spec fn sent<B, E, P: Policy<B, E>>(
    request: Request<B>,
    after: P,
    method: Method,
    uri: Seq<char>,
    body: B,
) -> bool {
    exists|before: P, fresh: Request<B>|
        #![trigger may_prepare::<B, E, P>(before, fresh, after, request)]
        {
            &&& fresh.method == method
            &&& fresh.uri@ == uri
            &&& fresh.body == body
            &&& may_prepare::<B, E, P>(before, fresh, after, request)
        }
}

/// Whether `request` is what the policy, left as `after`, has made of a request to `uri`
/// with the method `method` and a new empty body.
pub open spec fn sent_empty<B: Default, E, P: Policy<B, E>>(
    request: Request<B>,
    after: P,
    method: Method,
    uri: Seq<char>,
) -> bool {
    exists|body: B|
        call_ensures(B::default, (), body) && #[trigger] sent::<B, E, P>(
            request,
            after,
            method,
            uri,
            body,
        )
}

impl<B: Default, P> Engine<B, P> {
    /// Where a redirection was followed, there are the policy's state after its answer,
    /// the body that was taken and what was held after that, of which
    /// [`Engine::followed`] speaks.
    proof fn lemma_followed<E>(
        self,
        status: StatusCode,
        headers: HeaderMap<HeaderValue>,
        held_size: Option<u64>,
        after: Engine<B, P>,
        request: Request<B>,
    ) -> (found: (P, B, BodyRepr<B>)) where P: Policy<B, E>
        requires
            self.followed::<E>(status, headers, held_size, after, request),
        ensures
            P::decides(
                self.policy,
                self.attempt(status, headers),
                found.0,
                Ok::<Action, E>(Action::Follow),
            ),
            takes(self.source(status), found.1, found.2),
            reissued::<B, E, P>(
                Engine {
                    policy: found.0,
                    method: redirected_method(status, self.method),
                    uri: self.uri,
                    version: self.version,
                    headers: self.headers,
                    body: found.2,
                },
                self.target(headers).unwrap(),
                found.1,
                held_size,
                after,
                request,
            ),
            sent::<B, E, P>(
                request,
                after.policy,
                redirected_method(status, self.method),
                self.target(headers).unwrap(),
                found.1,
            ),
    {
        let (next, body, rest) = choose|next: P, body: B, rest: BodyRepr<B>|
            {
                &&& P::decides(
                    self.policy,
                    self.attempt(status, headers),
                    next,
                    Ok::<Action, E>(Action::Follow),
                )
                &&& takes(self.source(status), body, rest)
                &&& #[trigger] reissued::<B, E, P>(
                    Engine {
                        policy: next,
                        method: redirected_method(status, self.method),
                        uri: self.uri,
                        version: self.version,
                        headers: self.headers,
                        body: rest,
                    },
                    self.target(headers).unwrap(),
                    body,
                    held_size,
                    after,
                    request,
                )
            };
        let fresh = choose|fresh: Request<B>|
            {
                &&& fresh.method == redirected_method(status, self.method)
                &&& fresh.uri@ == self.target(headers).unwrap()
                &&& fresh.version == self.version
                &&& header_values(fresh.headers) == header_values(self.headers)
                &&& fresh.body == body
                &&& #[trigger] may_prepare::<B, E, P>(next, fresh, after.policy, request)
            };
        assert(may_prepare::<B, E, P>(next, fresh, after.policy, request));
        (next, body, rest)
    }

    /// A response whose status is none of 301, 302, 303, 307 and 308 is final,
    /// whatever else it holds: no request follows it.
    pub proof fn lemma_other_status_is_final<E>(
        self,
        status: StatusCode,
        headers: HeaderMap<HeaderValue>,
        held_size: Option<u64>,
        outcome: Result<Step<B, P>, E>,
    ) where P: Policy<B, E>
        requires
            self.answers::<E>(status, headers, held_size, outcome),
            !status.is_redirect(),
        ensures
            outcome == Ok::<Step<B, P>, E>(Step::Complete),
    {
    }

    /// After 301 or 302 a `POST` is repeated as a `GET` with an empty body, and the
    /// engine goes on with that method and an empty body.
    pub proof fn lemma_post_becomes_get<E>(
        self,
        status: StatusCode,
        headers: HeaderMap<HeaderValue>,
        held_size: Option<u64>,
        after: Engine<B, P>,
        request: Request<B>,
    ) where P: Policy<B, E>
        requires
            self.answers::<E>(status, headers, held_size, Ok(Step::Reissue(after, request))),
            status.code() == 301 || status.code() == 302,
            self.method == Method::Post,
        ensures
            after.method == Method::Get,
            after.body == BodyRepr::<B>::KnownEmpty,
            sent_empty::<B, E, P>(request, after.policy, Method::Get, after.uri@),
    {
        let found = self.lemma_followed::<E>(status, headers, held_size, after, request);
        assert(sent::<B, E, P>(request, after.policy, Method::Get, after.uri@, found.1));
    }

    /// After 303 a request is repeated as a `GET`, or as a `HEAD` where it was one,
    /// always with an empty body.
    pub proof fn lemma_see_other<E>(
        self,
        status: StatusCode,
        headers: HeaderMap<HeaderValue>,
        held_size: Option<u64>,
        after: Engine<B, P>,
        request: Request<B>,
    ) where P: Policy<B, E>
        requires
            self.answers::<E>(status, headers, held_size, Ok(Step::Reissue(after, request))),
            status.code() == 303,
        ensures
            after.method == if self.method == Method::Head {
                Method::Head
            } else {
                Method::Get
            },
            after.body == BodyRepr::<B>::KnownEmpty,
            sent_empty::<B, E, P>(request, after.policy, after.method, after.uri@),
    {
        let found = self.lemma_followed::<E>(status, headers, held_size, after, request);
        assert(sent::<B, E, P>(request, after.policy, after.method, after.uri@, found.1));
    }

    /// After 307 and 308, and after 301 and 302 where the method is not `POST`, a
    /// request is repeated with its method and with the body that the engine holds:
    /// the copy it has, or a new empty body where the body is known to be empty.
    pub proof fn lemma_method_and_body_kept<E>(
        self,
        status: StatusCode,
        headers: HeaderMap<HeaderValue>,
        held_size: Option<u64>,
        after: Engine<B, P>,
        request: Request<B>,
    ) where P: Policy<B, E>
        requires
            self.answers::<E>(status, headers, held_size, Ok(Step::Reissue(after, request))),
            status.code() == 307 || status.code() == 308 || ((status.code() == 301 || status.code()
                == 302) && self.method != Method::Post),
        ensures
            after.method == self.method,
            match self.body {
                BodyRepr::Owned(body) => sent::<B, E, P>(
                    request,
                    after.policy,
                    self.method,
                    after.uri@,
                    body,
                ),
                BodyRepr::KnownEmpty => after.body == BodyRepr::<B>::KnownEmpty && sent_empty::<
                    B,
                    E,
                    P,
                >(request, after.policy, self.method, after.uri@),
                BodyRepr::Exhausted => false,
            },
    {
        let found = self.lemma_followed::<E>(status, headers, held_size, after, request);
        assert(sent::<B, E, P>(request, after.policy, self.method, after.uri@, found.1));
    }

    /// Where the body would have to be sent again and none is at hand, the response
    /// is final: the 307 or 308 itself goes to the caller.
    pub proof fn lemma_without_body_is_final<E>(
        self,
        status: StatusCode,
        headers: HeaderMap<HeaderValue>,
        held_size: Option<u64>,
        outcome: Result<Step<B, P>, E>,
    ) where P: Policy<B, E>
        requires
            self.answers::<E>(status, headers, held_size, outcome),
            !drops_body(status, self.method),
            self.body is Exhausted,
        ensures
            outcome == Ok::<Step<B, P>, E>(Step::Complete),
    {
    }

    /// The next request goes where the `Location` header leads from the target of the
    /// request before it: the header is there, it is UTF-8, and its text resolves
    /// against that target to the target of the next request.
    pub proof fn lemma_target_is_resolved<E>(
        self,
        status: StatusCode,
        headers: HeaderMap<HeaderValue>,
        held_size: Option<u64>,
        after: Engine<B, P>,
        request: Request<B>,
    ) where P: Policy<B, E>
        requires
            self.answers::<E>(status, headers, held_size, Ok(Step::Reissue(after, request))),
        ensures
            location_of(headers) is Some,
            utf8_text(location_of(headers).unwrap()) is Some,
            resolved_location(utf8_text(location_of(headers).unwrap()).unwrap(), self.uri@)
                == Some(after.uri@),
            exists|body: B| #[trigger]
                sent::<B, E, P>(request, after.policy, after.method, after.uri@, body),
    {
        let found = self.lemma_followed::<E>(status, headers, held_size, after, request);
        assert(sent::<B, E, P>(request, after.policy, after.method, after.uri@, found.1));
    }

    /// A response without a `Location` header, with one that is not UTF-8, or with one
    /// that does not resolve, is final.
    pub proof fn lemma_without_target_is_final<E>(
        self,
        status: StatusCode,
        headers: HeaderMap<HeaderValue>,
        held_size: Option<u64>,
        outcome: Result<Step<B, P>, E>,
    ) where P: Policy<B, E>
        requires
            self.answers::<E>(status, headers, held_size, outcome),
            location_of(headers) matches Some(bytes) ==> (utf8_text(bytes) matches Some(text)
                ==> resolved_location(text, self.uri@) is None),
        ensures
            outcome == Ok::<Step<B, P>, E>(Step::Complete),
    {
    }
}

impl<B: Default> Engine<B, Standard> {
    /// Under [`Standard`] every redirection that can be made is followed, one that
    /// leads back to where it came from too: nothing but the response ends a call.
    pub proof fn lemma_standard_never_stops<E>(
        self,
        status: StatusCode,
        headers: HeaderMap<HeaderValue>,
        held_size: Option<u64>,
        outcome: Result<Step<B, Standard>, E>,
    )
        requires
            self.answers::<E>(status, headers, held_size, outcome),
            self.redirects(status, headers),
        ensures
            outcome matches Ok(Step::Reissue(after, request)) && after.uri@ == self.target(
                headers,
            ).unwrap() && request.uri@ == after.uri@ && request.method == after.method,
    {
        match outcome {
            Ok(Step::Reissue(after, request)) => {
                let found = self.lemma_followed::<E>(status, headers, held_size, after, request);
            },
            _ => {},
        }
    }
}

} // verus!
