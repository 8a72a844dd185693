//! The laws of the generator protocol, stated over whole runs.
//!
//! [`resume_outcome`](crate::resume_outcome) and
//! [`resume_next_state`](crate::resume_next_state) describe a single resume;
//! the contracts of [`Generator`](crate::Generator) tie every executable
//! step to them. The lemmas here lift those single steps to arbitrary
//! sequences of resumes: termination is final, a yielded value arrives
//! intact, and a body that echoes its input makes the generator the
//! identity on the caller's sequence.

use vstd::prelude::*;

use crate::generator::resume_next_state;
use crate::generator::resume_outcome;
use crate::generator::State;

verus! {

/// The state a generator is in after a run of resumes, each of whose
/// switches delivered the corresponding element of `yields`.
pub open spec fn states_after<O>(state: State, yields: Seq<Option<O>>) -> State
    decreases yields.len(),
{
    if yields.len() == 0 {
        state
    } else {
        states_after(resume_next_state(state, yields[0]), yields.drop_first())
    }
}

/// What the same run of resumes answers, resume by resume.
pub open spec fn outcomes<O>(state: State, yields: Seq<Option<O>>) -> Seq<Option<O>>
    decreases yields.len(),
{
    if yields.len() == 0 {
        Seq::empty()
    } else {
        seq![resume_outcome(state, yields[0])] + outcomes(
            resume_next_state(state, yields[0]),
            yields.drop_first(),
        )
    }
}

/// A run answers exactly one value per resume.
pub proof fn lemma_outcomes_len<O>(state: State, yields: Seq<Option<O>>)
    ensures
        outcomes(state, yields).len() == yields.len(),
    decreases yields.len(),
{
    if yields.len() > 0 {
        lemma_outcomes_len(resume_next_state(state, yields[0]), yields.drop_first());
    }
}

/// Law: once the body has returned, every later resume answers `None`, and
/// the generator stays unavailable — however many resumes follow and
/// whatever their switches would deliver.
pub proof fn lemma_terminated_stays_terminated<O>(yields: Seq<Option<O>>)
    ensures
        states_after(State::Unavailable, yields) == State::Unavailable,
        outcomes(State::Unavailable, yields).len() == yields.len(),
        forall|i: int|
            0 <= i < yields.len() ==> #[trigger] outcomes(State::Unavailable, yields)[i] is None,
    decreases yields.len(),
{
    lemma_outcomes_len(State::Unavailable, yields);
    if yields.len() > 0 {
        lemma_terminated_stays_terminated::<O>(yields.drop_first());
        let rest = outcomes(State::Unavailable, yields.drop_first());
        assert forall|i: int|
            0 <= i < yields.len() implies #[trigger] outcomes(State::Unavailable, yields)[i]
            is None by {
            if i > 0 {
                assert(outcomes(State::Unavailable, yields)[i] == rest[i - 1]);
            }
        }
    }
}

/// Law: a value handed to `suspend` arrives intact. The switch word of
/// `suspend(v)` is `Some(v)`, and a runnable generator answers that word
/// unchanged as `Some(v)`, staying runnable for the next resume.
pub proof fn lemma_yield_delivered<O>(v: O)
    ensures
        resume_outcome(State::Runnable, Some(v)) == Some(v),
        resume_next_state(State::Runnable, Some(v)) == State::Runnable,
{
}

/// Law: a resume that answers `None` leaves the generator unavailable — so
/// right after it, `state()` answers [`State::Unavailable`] and
/// [`unwrap`](crate::Generator::unwrap)'s precondition holds.
pub proof fn lemma_none_enables_unwrap<O>(state: State, yielded: Option<O>)
    ensures
        resume_outcome(state, yielded) is None ==> resume_next_state(state, yielded)
            == State::Unavailable,
{
}

/// Law: a resume that answers `Some` leaves the generator runnable — between
/// yields, `state()` answers [`State::Runnable`] and the stack is not yet
/// reclaimable.
pub proof fn lemma_some_means_runnable<O>(state: State, yielded: Option<O>)
    ensures
        resume_outcome(state, yielded) is Some ==> resume_next_state(state, yielded)
            == State::Runnable,
{
}

/// Law: a generator whose body immediately re-yields its input acts as the
/// identity on the caller's sequence. Each resume carries `inputs[i]`, the
/// body's paired suspend returns exactly that and yields it back, so each
/// switch delivers `Some(inputs[i])`; the run answers `Some(inputs[i])` at
/// every step and the generator stays runnable throughout.
pub proof fn lemma_echo_identity<T>(inputs: Seq<T>)
    ensures
        states_after(State::Runnable, inputs.map_values(|u: T| Some(u))) == State::Runnable,
        outcomes(State::Runnable, inputs.map_values(|u: T| Some(u))).len() == inputs.len(),
        forall|i: int|
            0 <= i < inputs.len() ==> outcomes(State::Runnable, inputs.map_values(|u: T| Some(u)))[i]
                == Some(#[trigger] inputs[i]),
    decreases inputs.len(),
{
    let ys = inputs.map_values(|u: T| Some(u));
    lemma_outcomes_len(State::Runnable, ys);
    if inputs.len() > 0 {
        assert(ys[0] == Some(inputs[0]));
        lemma_echo_identity::<T>(inputs.drop_first());
        assert(inputs.drop_first().map_values(|u: T| Some(u)) =~= ys.drop_first());
        let rest = outcomes(State::Runnable, ys.drop_first());
        assert forall|i: int|
            0 <= i < inputs.len() implies outcomes(State::Runnable, ys)[i] == Some(
            #[trigger] inputs[i],
        ) by {
            if i > 0 {
                assert(outcomes(State::Runnable, ys)[i] == rest[i - 1]);
                assert(rest[i - 1] == Some(inputs.drop_first()[i - 1]));
            }
        }
    }
}

} // verus!
