use super::{clone_body_of, may_prepare, Action, Attempt, AttemptView, Policy};
use crate::message::Request;
use vstd::prelude::*;

verus! {

/// A redirection [`Policy`] that combines the results of two `Policy`s.
///
/// See [`select`] for more details.
#[derive(Clone, Copy, Debug, Default)]
pub struct Select<A, B> {
    pub a: A,
    pub b: B,
}

impl<Bd, E, A, B> Policy<Bd, E> for Select<A, B> where A: Policy<Bd, E>, B: Policy<Bd, E> {
    /// The first policy is asked. Where it follows, that is the answer and the second
    /// is left alone; where it stops or fails, the second is asked and its answer,
    /// an error too, is the answer.
    open spec fn decides(self, attempt: AttemptView, next: Self, outcome: Result<Action, E>) -> bool {
        exists|first: Result<Action, E>|
            #![trigger A::decides(self.a, attempt, next.a, first)]
            A::decides(self.a, attempt, next.a, first) && if first == Ok::<Action, E>(
                Action::Follow,
            ) {
                next.b == self.b && outcome == first
            } else {
                B::decides(self.b, attempt, next.b, outcome)
            }
    }

    /// The first policy sees the request, then the second sees what the first made of it.
    open spec fn prepares(self, request: Request<Bd>, next: Self, prepared: Request<Bd>) -> bool {
        exists|between: Request<Bd>|
            #![trigger super::may_prepare::<Bd, E, A>(self.a, request, next.a, between)]
            super::may_prepare::<Bd, E, A>(self.a, request, next.a, between) && super::may_prepare::<
                Bd,
                E,
                B,
            >(self.b, between, next.b, prepared)
    }

    /// A copy comes from the first policy or from the second.
    open spec fn copies(self, body: Bd, copy: Bd) -> bool {
        A::copies(self.a, body, copy) || B::copies(self.b, body, copy)
    }

    fn redirect(&mut self, attempt: &Attempt<'_>) -> (outcome: Result<Action, E>) {
        let first = self.a.redirect(attempt);
        match first {
            Ok(Action::Follow) => {
                assert(A::decides(old(self).a, attempt@, self.a, first));
                first
            },
            _ => {
                let second = self.b.redirect(attempt);
                assert(A::decides(old(self).a, attempt@, self.a, first));
                second
            },
        }
    }

    /// Hands the request to the first policy, and what that has made of it to the
    /// second, whatever the first has done.
    fn on_request(&mut self, request: &mut Request<Bd>)
        ensures
            exists|first: &mut A, shown: &mut Request<Bd>, second: &mut B, passed: &mut Request<Bd>|
                #![trigger call_ensures(A::on_request, (first, shown), ()), call_ensures(B::on_request, (second, passed), ())]
                {
                    &&& mut_ref_current(first) == old(self).a
                    &&& mut_ref_future(first) == final(self).a
                    &&& mut_ref_current(second) == old(self).b
                    &&& mut_ref_future(second) == final(self).b
                    &&& mut_ref_current(shown) == *old(request)
                    &&& mut_ref_future(shown) == mut_ref_current(passed)
                    &&& mut_ref_future(passed) == *final(request)
                    &&& call_ensures(A::on_request, (first, shown), ())
                    &&& call_ensures(B::on_request, (second, passed), ())
                },
    {
        self.a.on_request(request);
        let ghost between = *request;
        self.b.on_request(request);
        assert(may_prepare::<Bd, E, A>(old(self).a, *old(request), self.a, between));
        assert(may_prepare::<Bd, E, B>(old(self).b, between, self.b, *request));
    }

    /// Asks the first policy for a copy, and the second where the first has none.
    fn clone_body(&self, body: &Bd) -> (copy: Option<Bd>)
        ensures
            (copy is Some && clone_body_of::<Bd, E, A>(self.a, *body, copy)) || (clone_body_of::<
                Bd,
                E,
                A,
            >(self.a, *body, None) && clone_body_of::<Bd, E, B>(self.b, *body, copy)),
    {
        match self.a.clone_body(body) {
            Some(copy) => Some(copy),
            None => self.b.clone_body(body),
        }
    }
}

/// Create a new `Policy` that returns [`Action::Follow`] if either `a` or `b` returns
/// `Action::Follow`.
///
/// [`clone_body`][Policy::clone_body] method of the returned `Policy` tries to clone the
/// body with both policies.
pub fn select<A, B, Bd, E>(a: A, b: B) -> (policy: Select<A, B>) where
    A: Policy<Bd, E>,
    B: Policy<Bd, E>,

    ensures
        policy.a == a,
        policy.b == b,
{
    Select { a, b }
}

/// Where the first policy can only follow, the combination follows and the second
/// policy is not asked: it stays as it was.
pub proof fn lemma_select_follows_first<Bd, E, A, B>(
    policy: Select<A, B>,
    attempt: AttemptView,
    next: Select<A, B>,
    outcome: Result<Action, E>,
) where A: Policy<Bd, E>, B: Policy<Bd, E>
    requires
        <Select<A, B> as Policy<Bd, E>>::decides(policy, attempt, next, outcome),
        forall|first: Result<Action, E>| #[trigger]
            A::decides(policy.a, attempt, next.a, first) ==> first == Ok::<Action, E>(
                Action::Follow,
            ),
    ensures
        outcome == Ok::<Action, E>(Action::Follow),
        next.b == policy.b,
{
}

/// Where the first policy cannot follow, because it stops or because it fails, the
/// second policy is asked, and its answer is that of the combination: its action or
/// its error, never the error of the first.
pub proof fn lemma_select_falls_back<Bd, E, A, B>(
    policy: Select<A, B>,
    attempt: AttemptView,
    next: Select<A, B>,
    outcome: Result<Action, E>,
) where A: Policy<Bd, E>, B: Policy<Bd, E>
    requires
        <Select<A, B> as Policy<Bd, E>>::decides(policy, attempt, next, outcome),
        forall|first: Result<Action, E>| #[trigger]
            A::decides(policy.a, attempt, next.a, first) ==> first != Ok::<Action, E>(
                Action::Follow,
            ),
    ensures
        B::decides(policy.b, attempt, next.b, outcome),
{
}

/// Whatever the second policy answers is an answer of the combination, where the
/// first may stop or fail; and where the first may follow, so may the combination.
pub proof fn lemma_select_answers<Bd, E, A, B>(
    policy: Select<A, B>,
    attempt: AttemptView,
    next: Select<A, B>,
    first: Result<Action, E>,
    second: Result<Action, E>,
) where A: Policy<Bd, E>, B: Policy<Bd, E>
    requires
        A::decides(policy.a, attempt, next.a, first),
        first == Ok::<Action, E>(Action::Follow) ==> next.b == policy.b,
        first != Ok::<Action, E>(Action::Follow) ==> B::decides(
            policy.b,
            attempt,
            next.b,
            second,
        ),
    ensures
        <Select<A, B> as Policy<Bd, E>>::decides(
            policy,
            attempt,
            next,
            if first == Ok::<Action, E>(Action::Follow) {
                first
            } else {
                second
            },
        ),
{
}

} // verus!
