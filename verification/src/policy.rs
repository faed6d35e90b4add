//! Deciding whether a redirection is followed.

pub mod limited;
pub mod select;

use crate::message::{Request, StatusCode};
use vstd::prelude::*;

pub use limited::Limited;
pub use select::{select, Select};

verus! {

/// What a policy decides of one redirection.
#[derive(Clone, Copy, Debug, PartialEq, Eq, Structural)]
pub enum Action {
    /// Follow the redirection.
    Follow,
    /// Do not follow it: the response that asks for it is the final one.
    Stop,
}

impl Action {
    /// Whether the action is [`Action::Follow`].
    pub fn is_follow(&self) -> (b: bool)
        ensures
            b == (*self == Action::Follow),
    {
        match self {
            Action::Follow => true,
            Action::Stop => false,
        }
    }

    /// Whether the action is [`Action::Stop`].
    pub fn is_stop(&self) -> (b: bool)
        ensures
            b == (*self == Action::Stop),
    {
        match self {
            Action::Follow => false,
            Action::Stop => true,
        }
    }
}

/// One redirection that a policy is asked about.
#[derive(Clone, Copy, Debug)]
pub struct Attempt<'a> {
    /// The status code of the response that asks for the redirection.
    pub status: StatusCode,
    /// Where it leads: the target, resolved.
    pub location: &'a str,
    /// The target of the request that was answered with it.
    pub previous: &'a str,
}

/// An [`Attempt`] as contracts speak of it.
pub struct AttemptView {
    pub status: StatusCode,
    pub location: Seq<char>,
    pub previous: Seq<char>,
}

impl<'a> View for Attempt<'a> {
    type V = AttemptView;

    open spec fn view(&self) -> AttemptView {
        AttemptView { status: self.status, location: self.location@, previous: self.previous@ }
    }
}

impl<'a> Attempt<'a> {
    /// The status code of the response that asks for the redirection.
    pub fn status(&self) -> (status: StatusCode)
        ensures
            status == self.status,
    {
        self.status
    }

    /// The target of the redirection.
    pub fn location(&self) -> (location: &'a str)
        ensures
            location@ == self.location@,
    {
        self.location
    }

    /// The target of the request that was redirected.
    pub fn previous(&self) -> (previous: &'a str)
        ensures
            previous@ == self.previous@,
    {
        self.previous
    }
}

/// A policy on redirections. `B` is the type of request bodies, `E` that of the error
/// with which a policy may refuse.
///
/// Each method has a relation that says what it may do; an implementation states the
/// relation and is held to it.
pub trait Policy<B, E>: Sized {
    /// What [`Policy::redirect`] may do when asked about `attempt`: answer `outcome`
    /// and leave the policy as `next`. A policy that states nothing may do anything.
    open spec fn decides(self, attempt: AttemptView, next: Self, outcome: Result<Action, E>) -> bool {
        true
    }

    /// How [`Policy::on_request`] may alter a request and the policy, other than by
    /// leaving both as they are, which is always open to it.
    open spec fn prepares(self, request: Request<B>, next: Self, prepared: Request<B>) -> bool {
        false
    }

    /// Which values [`Policy::clone_body`] may hand out as a copy of `body`.
    open spec fn copies(self, body: B, copy: B) -> bool {
        false
    }

    /// Decides whether one redirection is followed. An error ends the whole call.
    fn redirect(&mut self, attempt: &Attempt<'_>) -> (outcome: Result<Action, E>)
        ensures
            Self::decides(*old(self), attempt@, *final(self), outcome),
    ;

    /// Looks at, and may alter, a request before it is sent: the first one and each
    /// one that follows a redirection.
    fn on_request(&mut self, request: &mut Request<B>)
        ensures
            (*final(self) == *old(self) && *final(request) == *old(request)) || Self::prepares(
                *old(self),
                *old(request),
                *final(self),
                *final(request),
            ),
        default_ensures
            *final(self) == *old(self),
            *final(request) == *old(request),
    {
    }

    /// Tries to copy a request body, so that it can be sent once more.
    fn clone_body(&self, body: &B) -> (copy: Option<B>)
        ensures
            copy matches Some(c) ==> Self::copies(*self, *body, c),
        default_ensures
            copy is None,
    {
        None
    }
}

/// Whether the `clone_body` of `P`, held to what `P` itself says of it, may answer
/// `copy` when `policy` is asked to copy `body`.
pub open spec fn clone_body_of<B, E, P: Policy<B, E>>(policy: P, body: B, copy: Option<B>) -> bool {
    call_ensures(P::clone_body, (&policy, &body), copy)
}

/// The policy behind a borrow of it.
pub open spec fn borrowed<P>(policy: &mut P) -> P {
    *policy
}

/// What the trait lets [`Policy::on_request`] do to a policy and a request: leave both, or
/// alter them as [`Policy::prepares`] says. What a policy's own `on_request` has done is
/// said where it is called.
pub open spec fn may_prepare<B, E, P: Policy<B, E>>(
    policy: P,
    request: Request<B>,
    next: P,
    prepared: Request<B>,
) -> bool {
    (next == policy && prepared == request) || P::prepares(policy, request, next, prepared)
}

/// Every redirection is followed; requests are left as they are and no body is copied.
#[derive(Clone, Copy, Debug)]
pub struct Standard {
    _priv: (),
}

impl Standard {
    /// The standard policy. It holds nothing, so there is no other value of its type.
    pub closed spec fn value() -> Standard {
        Standard { _priv: () }
    }

    /// Every value of the type is the standard policy.
    pub proof fn lemma_only_value(self)
        ensures
            self == Standard::value(),
    {
    }
}

impl Default for Standard {
    fn default() -> (policy: Standard)
        ensures
            policy == Standard::value(),
    {
        Standard { _priv: () }
    }
}

impl<B, E> Policy<B, E> for Standard {
    open spec fn decides(self, attempt: AttemptView, next: Self, outcome: Result<Action, E>) -> bool {
        next == self && outcome == Ok::<Action, E>(Action::Follow)
    }

    fn redirect(&mut self, attempt: &Attempt<'_>) -> (outcome: Result<Action, E>) {
        Ok(Action::Follow)
    }
}

/// An action is the policy that always decides for it.
impl<B, E> Policy<B, E> for Action {
    open spec fn decides(self, attempt: AttemptView, next: Self, outcome: Result<Action, E>) -> bool {
        next == self && outcome == Ok::<Action, E>(self)
    }

    fn redirect(&mut self, attempt: &Attempt<'_>) -> (outcome: Result<Action, E>) {
        Ok(*self)
    }
}

/// A result is the policy that always answers with a clone of it.
impl<B, E: Clone> Policy<B, E> for Result<Action, E> {
    open spec fn decides(self, attempt: AttemptView, next: Self, outcome: Result<Action, E>) -> bool {
        next == self && match self {
            Ok(action) => outcome == Ok::<Action, E>(action),
            Err(error) => outcome matches Err(e) && cloned::<E>(error, e),
        }
    }

    fn redirect(&mut self, attempt: &Attempt<'_>) -> (outcome: Result<Action, E>) {
        match self {
            Ok(action) => Ok(*action),
            Err(error) => Err(error.clone()),
        }
    }
}

/// A borrowed policy decides as the policy itself does.
impl<B, E, P: Policy<B, E>> Policy<B, E> for &mut P {
    open spec fn decides(self, attempt: AttemptView, next: Self, outcome: Result<Action, E>) -> bool {
        P::decides(*self, attempt, *next, outcome)
    }

    open spec fn prepares(self, request: Request<B>, next: Self, prepared: Request<B>) -> bool {
        crate::policy::may_prepare::<B, E, P>(*self, request, *next, prepared)
    }

    open spec fn copies(self, body: B, copy: B) -> bool {
        P::copies(*self, body, copy)
    }

    fn redirect(&mut self, attempt: &Attempt<'_>) -> (outcome: Result<Action, E>) {
        (**self).redirect(attempt)
    }

    /// Hands the request to the policy itself: what that makes of it is the result.
    fn on_request(&mut self, request: &mut Request<B>)
        ensures
            exists|lent: &mut P, shown: &mut Request<B>|
                {
                    &&& mut_ref_current(lent) == borrowed(*old(self))
                    &&& mut_ref_future(lent) == borrowed(*final(self))
                    &&& mut_ref_current(shown) == *old(request)
                    &&& mut_ref_future(shown) == *final(request)
                    &&& #[trigger] call_ensures(P::on_request, (lent, shown), ())
                },
    {
        (**self).on_request(request)
    }

    /// Asks the policy itself for the copy: its answer is the result.
    fn clone_body(&self, body: &B) -> (copy: Option<B>)
        ensures
            clone_body_of::<B, E, P>(borrowed(*self), *body, copy),
    {
        (**self).clone_body(body)
    }
}

/// Whether a policy that starts as `states[0]` may be asked about `attempts` one after
/// the other, answer `outcomes` and pass through `states`.
pub open spec fn consulted<B, E, P: Policy<B, E>>(
    states: Seq<P>,
    attempts: Seq<AttemptView>,
    outcomes: Seq<Result<Action, E>>,
) -> bool {
    &&& states.len() == outcomes.len() + 1
    &&& attempts.len() == outcomes.len()
    &&& forall|i: int|
        0 <= i < outcomes.len() ==> #[trigger] P::decides(
            states[i],
            attempts[i],
            states[i + 1],
            outcomes[i],
        )
}

/// [`Standard`] follows every redirection, whatever it is asked about and however
/// often: one that leads back to the target it came from is followed like any other.
pub proof fn lemma_standard_follows_all<B, E>(
    states: Seq<Standard>,
    attempts: Seq<AttemptView>,
    outcomes: Seq<Result<Action, E>>,
)
    requires
        consulted::<B, E, Standard>(states, attempts, outcomes),
    ensures
        forall|i: int| 0 <= i < outcomes.len() ==> outcomes[i] == Ok::<Action, E>(Action::Follow),
{
    assert forall|i: int| 0 <= i < outcomes.len() implies outcomes[i] == Ok::<Action, E>(
        Action::Follow,
    ) by {
        assert(<Standard as Policy<B, E>>::decides(
            states[i],
            attempts[i],
            states[i + 1],
            outcomes[i],
        ));
    }
}

} // verus!
