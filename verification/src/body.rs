//! Keeping a request body at hand, so that a request can be sent again.

use crate::policy::{clone_body_of, Policy};
use vstd::prelude::*;

verus! {

/// The body that a further request would carry.
#[derive(Debug)]
pub enum BodyRepr<B> {
    /// A copy of the body is held, to be sent once.
    Owned(B),
    /// The body is known to be empty: a new empty body is made whenever one is needed.
    KnownEmpty,
    /// No body is at hand.
    Exhausted,
}

/// Whether `held` is what is held once a body whose exact size is `exact_size`, where
/// that is known, has been handed to `policy` to copy. A body known to have no bytes is
/// not copied but noted as empty. Of any other the policy is asked for a copy by its
/// `clone_body`: the copy it answers with is held, and nothing where it has none.
pub open spec fn refilled<B, E, P: Policy<B, E>>(
    policy: P,
    body: B,
    exact_size: Option<u64>,
    held: BodyRepr<B>,
) -> bool {
    if exact_size == Some(0u64) {
        held is KnownEmpty
    } else {
        match held {
            BodyRepr::Owned(copy) => clone_body_of::<B, E, P>(policy, body, Some(copy))
                && P::copies(policy, body, copy),
            BodyRepr::KnownEmpty => false,
            BodyRepr::Exhausted => clone_body_of::<B, E, P>(policy, body, None),
        }
    }
}

impl<B: Default> BodyRepr<B> {
    /// Takes the body for one request. A copy that was held is gone after that; an
    /// empty body can be taken as often as needed.
    pub fn take(&mut self) -> (body: Option<B>)
        ensures
            match *old(self) {
                BodyRepr::Owned(held) => body == Some(held) && *final(self)
                    == BodyRepr::<B>::Exhausted,
                BodyRepr::KnownEmpty => *final(self) == BodyRepr::<B>::KnownEmpty && (
                body matches Some(fresh) && call_ensures(B::default, (), fresh)),
                BodyRepr::Exhausted => body is None && *final(self) == BodyRepr::<B>::Exhausted,
            },
    {
        let mut held = BodyRepr::Exhausted;
        core::mem::swap(self, &mut held);
        match held {
            BodyRepr::Owned(body) => Some(body),
            BodyRepr::KnownEmpty => {
                *self = BodyRepr::KnownEmpty;
                Some(B::default())
            },
            BodyRepr::Exhausted => None,
        }
    }

    /// Where no body is at hand, tries to get one from `body`, whose exact size is
    /// `exact_size` where that is known. What is held already stays.
    pub fn try_clone_from<P, E>(&mut self, body: &B, exact_size: Option<u64>, policy: &P) where
        P: Policy<B, E>,

        ensures
            match *old(self) {
                BodyRepr::Exhausted => refilled::<B, E, P>(
                    *policy,
                    *body,
                    exact_size,
                    *final(self),
                ),
                _ => *final(self) == *old(self),
            },
    {
        match self {
            BodyRepr::Owned(_) | BodyRepr::KnownEmpty => {},
            BodyRepr::Exhausted => {
                *self = clone_body(policy, body, exact_size);
            },
        }
    }
}

/// What is to be held of `body`, whose exact size is `exact_size` where that is known.
pub fn clone_body<P, B, E>(policy: &P, body: &B, exact_size: Option<u64>) -> (held: BodyRepr<B>) where
    P: Policy<B, E>,

    ensures
        refilled::<B, E, P>(*policy, *body, exact_size, held),
{
    let known_empty = match exact_size {
        Some(size) => size == 0,
        None => false,
    };
    if known_empty {
        BodyRepr::KnownEmpty
    } else {
        match policy.clone_body(body) {
            Some(copy) => BodyRepr::Owned(copy),
            None => BodyRepr::Exhausted,
        }
    }
}

} // verus!
