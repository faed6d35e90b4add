use super::{consulted, Action, Attempt, AttemptView, Policy};
use vstd::prelude::*;

verus! {

/// Follows redirections up to a number of them, and stops at the next.
#[derive(Clone, Copy, Debug)]
pub struct Limited {
    remaining: usize,
}

impl Limited {
    /// How many more redirections the policy will follow.
    pub closed spec fn remaining(self) -> nat {
        self.remaining as nat
    }

    /// The policy that follows `max` redirections.
    pub fn new(max: usize) -> (policy: Limited)
        ensures
            policy.remaining() == max,
    {
        Limited { remaining: max }
    }
}

impl Default for Limited {
    /// The policy that follows 20 redirections.
    fn default() -> (policy: Limited)
        ensures
            policy.remaining() == 20,
    {
        Limited::new(20)
    }
}

impl<B, E> Policy<B, E> for Limited {
    open spec fn decides(self, attempt: AttemptView, next: Self, outcome: Result<Action, E>) -> bool {
        if self.remaining() > 0 {
            next.remaining() == self.remaining() - 1 && outcome == Ok::<Action, E>(Action::Follow)
        } else {
            next == self && outcome == Ok::<Action, E>(Action::Stop)
        }
    }

    fn redirect(&mut self, attempt: &Attempt<'_>) -> (outcome: Result<Action, E>) {
        if self.remaining > 0 {
            self.remaining = self.remaining - 1;
            Ok(Action::Follow)
        } else {
            Ok(Action::Stop)
        }
    }
}

/// A limit of `max` grants exactly `max` redirections: asked again and again, it
/// follows the first `max` times and stops every time after that.
pub proof fn lemma_limit_is_exact<B, E>(
    max: nat,
    states: Seq<Limited>,
    attempts: Seq<AttemptView>,
    outcomes: Seq<Result<Action, E>>,
)
    requires
        consulted::<B, E, Limited>(states, attempts, outcomes),
        states[0].remaining() == max,
    ensures
        forall|i: int|
            0 <= i < outcomes.len() ==> #[trigger] outcomes[i] == if i < max {
                Ok::<Action, E>(Action::Follow)
            } else {
                Ok::<Action, E>(Action::Stop)
            },
        forall|i: int|
            0 <= i < states.len() ==> (#[trigger] states[i]).remaining() == if i < max {
                max - i
            } else {
                0
            },
    decreases outcomes.len(),
{
    if outcomes.len() > 0 {
        let last = outcomes.len() - 1;
        assert forall|i: int| 0 <= i < last implies #[trigger] <Limited as Policy<B, E>>::decides(
            states.drop_last()[i],
            attempts.drop_last()[i],
            states.drop_last()[i + 1],
            outcomes.drop_last()[i],
        ) by {
            assert(<Limited as Policy<B, E>>::decides(
                states[i],
                attempts[i],
                states[i + 1],
                outcomes[i],
            ));
        }
        lemma_limit_is_exact::<B, E>(
            max,
            states.drop_last(),
            attempts.drop_last(),
            outcomes.drop_last(),
        );
        assert(<Limited as Policy<B, E>>::decides(
            states[last],
            attempts[last],
            states[last + 1],
            outcomes[last],
        ));
        assert(states[last] == states.drop_last()[last]);
        assert forall|i: int| 0 <= i < outcomes.len() implies #[trigger] outcomes[i] == if i
            < max {
            Ok::<Action, E>(Action::Follow)
        } else {
            Ok::<Action, E>(Action::Stop)
        } by {
            if i < last {
                assert(outcomes[i] == outcomes.drop_last()[i]);
            }
        }
        assert forall|i: int| 0 <= i < states.len() implies (#[trigger] states[i]).remaining()
            == if i < max {
            max - i
        } else {
            0
        } by {
            if i <= last {
                assert(states[i] == states.drop_last()[i]);
            }
        }
    }
}

} // verus!
