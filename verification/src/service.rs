//! The middleware and its layer: an inner service and the policy of each call.

use crate::body::{refilled, BodyRepr};
use crate::engine::Engine;
use crate::message::Request;
use crate::policy::{may_prepare, Limited, Policy, Standard};
use vstd::prelude::*;

verus! {

/// Wraps services with [`FollowRedirect`], each with a clone of one policy.
#[derive(Clone, Copy, Debug, Default)]
pub struct FollowRedirectLayer<P = Standard> {
    pub policy: P,
}

impl FollowRedirectLayer {
    /// Create a new [`FollowRedirectLayer`] with a [`Standard`] redirection policy.
    pub fn standard() -> (layer: Self)
        ensures
            layer.policy == Standard::value(),
    {
        FollowRedirectLayer { policy: Standard::default() }
    }
}

impl<P> FollowRedirectLayer<P> {
    /// Create a new [`FollowRedirectLayer`] with the given redirection [`Policy`].
    pub fn new(policy: P) -> (layer: Self)
        ensures
            layer.policy == policy,
    {
        FollowRedirectLayer { policy }
    }
}

impl<P: Clone> FollowRedirectLayer<P> {
    /// Wraps `inner`, with a clone of the layer's policy.
    pub fn layer<S>(&self, inner: S) -> (service: FollowRedirect<S, P>)
        ensures
            service.inner == inner,
            cloned::<P>(self.policy, service.policy),
    {
        FollowRedirect::new(inner, self.policy.clone())
    }
}

/// An inner service and the policy under which its redirections are followed. The
/// policy is a template: each call works on a clone of it.
#[derive(Clone, Copy, Debug)]
pub struct FollowRedirect<S, P = Standard> {
    pub inner: S,
    pub policy: P,
}

impl<S> FollowRedirect<S> {
    /// Create a new [`FollowRedirect`] with a [`Standard`] redirection policy.
    pub fn standard(inner: S) -> (service: Self)
        ensures
            service.inner == inner,
            service.policy == Standard::value(),
    {
        FollowRedirect { inner, policy: Standard::default() }
    }
}

impl<S, P> FollowRedirect<S, P> {
    /// Gets a reference to the underlying service.
    pub fn get_ref(&self) -> (inner: &S)
        ensures
            *inner == self.inner,
    {
        &self.inner
    }

    /// Gets a mutable reference to the underlying service.
    pub fn get_mut(&mut self) -> (inner: &mut S)
        ensures
            *inner == old(self).inner,
            final(self).inner == *final(inner),
            final(self).policy == old(self).policy,
    {
        &mut self.inner
    }

    /// Consumes `self`, returning the underlying service.
    pub fn into_inner(self) -> (inner: S)
        ensures
            inner == self.inner,
    {
        self.inner
    }
}

/// What [`FollowRedirect::call`] may make of `request` under the policy `policy`: the
/// request `first` to send and the engine `engine` that awaits its response.
pub open spec fn started<B, E, P: Policy<B, E>>(
    policy: P,
    request: Request<B>,
    exact_size: Option<u64>,
    first: Request<B>,
    engine: Engine<B, P>,
) -> bool {
    &&& refilled::<B, E, P>(policy, request.body, exact_size, engine.body)
    &&& may_prepare::<B, E, P>(policy, request, engine.policy, first)
    &&& engine.method == first.method
    &&& engine.uri == first.uri
    &&& engine.version == first.version
    &&& crate::message::header_values(engine.headers) == crate::message::header_values(
        first.headers,
    )
}

impl<S, P> FollowRedirect<S, P> where P: Clone {
    /// Create a new [`FollowRedirect`] with the given redirection [`Policy`].
    pub fn new(inner: S, policy: P) -> (service: Self)
        ensures
            service.inner == inner,
            service.policy == policy,
    {
        FollowRedirect { inner, policy }
    }

    /// Returns a new layer that wraps services with a `FollowRedirect` middleware.
    pub fn layer(policy: P) -> (layer: FollowRedirectLayer<P>)
        ensures
            layer.policy == policy,
    {
        FollowRedirectLayer::new(policy)
    }

    /// What [`FollowRedirect::call`] may give: what a clone of the policy makes of the
    /// request.
    pub open spec fn begins<B, E>(
        self,
        request: Request<B>,
        exact_size: Option<u64>,
        first: Request<B>,
        engine: Engine<B, P>,
    ) -> bool where P: Policy<B, E> {
        exists|policy: P| #[trigger]
            cloned::<P>(self.policy, policy) && started::<B, E, P>(
                policy,
                request,
                exact_size,
                first,
                engine,
            )
    }

    /// Begins a call: gives the first request to send and the engine that awaits its
    /// response. `exact_size` is the exact size of the request's body, where it is known.
    ///
    /// The call works on a clone of the policy, so that nothing of it stays behind in
    /// `self`. A body for further requests is sought from the request's own, the policy
    /// sees the request, and the engine keeps the method, target, version and headers
    /// that the request has after that.
    pub fn call<B: Default, E>(&self, request: Request<B>, exact_size: Option<u64>) -> (begun: (
        Request<B>,
        Engine<B, P>,
    )) where P: Policy<B, E>
        ensures
            self.begins::<B, E>(request, exact_size, begun.0, begun.1),
            exists|lent: &mut P, shown: &mut Request<B>|
                {
                    &&& cloned::<P>(self.policy, mut_ref_current(lent))
                    &&& started::<B, E, P>(
                        mut_ref_current(lent),
                        request,
                        exact_size,
                        begun.0,
                        begun.1,
                    )
                    &&& mut_ref_future(lent) == begun.1.policy
                    &&& mut_ref_current(shown) == request
                    &&& mut_ref_future(shown) == begun.0
                    &&& #[trigger] call_ensures(P::on_request, (lent, shown), ())
                },
    {
        let mut policy = self.policy.clone();
        let ghost cloned_policy = policy;
        let mut request = request;
        let mut body = BodyRepr::Exhausted;
        body.try_clone_from(&request.body, exact_size, &policy);
        policy.on_request(&mut request);
        let engine = Engine {
            method: request.method.clone(),
            uri: request.uri.clone(),
            version: request.version,
            headers: crate::message::clone_headers(&request.headers),
            body,
            policy,
        };
        assert(cloned::<P>(self.policy, cloned_policy));
        (request, engine)
    }
}

/// A call leaves nothing behind in the service. Under a limit every call begins with
/// the whole of it, however many redirections the calls before it have followed, and
/// its first request is the caller's own.
pub proof fn lemma_each_call_has_the_whole_limit<S, B, E>(
    service: FollowRedirect<S, Limited>,
    request: Request<B>,
    exact_size: Option<u64>,
    first: Request<B>,
    engine: Engine<B, Limited>,
)
    requires
        service.begins::<B, E>(request, exact_size, first, engine),
    ensures
        engine.policy.remaining() == service.policy.remaining(),
        first == request,
{
}

} // verus!
