//! Mealy machine: the output depends on the current state and the input.
use vstd::prelude::*;
use vstd::std_specs::cmp::PartialEqSpec;

use crate::table::{lookup, resolve};
use crate::StepError;

verus! {

/// A Mealy machine over a static transition table `(from, input, to)` and a
/// static output table `(state, input, output)`.
pub struct Mealy<I: 'static, O: 'static> {
    state: u8,
    transitions: &'static [(u8, I, u8)],
    outputs: &'static [(u8, I, O)],
}

/// What a Mealy step returns from state `s` on input `i`: the transition is
/// looked up first, then the output keyed on the state before the step.
pub open spec fn mealy_result<I: PartialEq, O>(
    transitions: Seq<(u8, I, u8)>,
    outputs: Seq<(u8, I, O)>,
    s: u8,
    i: I,
) -> Result<O, StepError> {
    match lookup(transitions, s, i) {
        None => Err(StepError::NoTransition),
        Some(_) => match lookup(outputs, s, i) {
            None => Err(StepError::NoOutput),
            Some(o) => Ok(o),
        },
    }
}

/// The state after a Mealy step from `s` on `i`: the next state when both
/// lookups succeed, else `s` itself.
pub open spec fn mealy_next<I: PartialEq, O>(
    transitions: Seq<(u8, I, u8)>,
    outputs: Seq<(u8, I, O)>,
    s: u8,
    i: I,
) -> u8 {
    match (lookup(transitions, s, i), lookup(outputs, s, i)) {
        (Some(n), Some(_)) => n,
        _ => s,
    }
}

impl<I: Copy + Eq + 'static, O: Copy + 'static> Mealy<I, O> {
    /// The current state.
    pub closed spec fn state(&self) -> u8 {
        self.state
    }

    /// The transition table, in order.
    pub closed spec fn transitions(&self) -> Seq<(u8, I, u8)> {
        self.transitions@
    }

    /// The output table, in order.
    pub closed spec fn outputs(&self) -> Seq<(u8, I, O)> {
        self.outputs@
    }

    /// Builds a machine in `initial_state` over the given tables, which are
    /// taken as they are.
    pub fn new(
        initial_state: u8,
        transitions: &'static [(u8, I, u8)],
        outputs: &'static [(u8, I, O)],
    ) -> (r: Self)
        ensures
            r.state() == initial_state,
            r.transitions() == transitions@,
            r.outputs() == outputs@,
    {
        Mealy { state: initial_state, transitions, outputs }
    }

    /// Feeds one input. Both lookups are made against the current state; the
    /// transition is committed only when both succeed, and the output is
    /// returned.
    pub fn step(&mut self, input: I) -> (r: Result<O, StepError>)
        ensures
            final(self).transitions() == old(self).transitions(),
            final(self).outputs() == old(self).outputs(),
            r is Err ==> final(self).state() == old(self).state(),
            r is Ok ==> exists|k: int|
                0 <= k < old(self).transitions().len()
                    && (#[trigger] old(self).transitions()[k]).0 == old(self).state()
                    && final(self).state() == old(self).transitions()[k].2,
            r is Ok ==> exists|k: int|
                0 <= k < old(self).outputs().len()
                    && (#[trigger] old(self).outputs()[k]).0 == old(self).state()
                    && r == Ok::<O, StepError>(old(self).outputs()[k].2),
            I::obeys_eq_spec() ==> r == mealy_result(
                old(self).transitions(),
                old(self).outputs(),
                old(self).state(),
                input,
            ),
            I::obeys_eq_spec() ==> final(self).state() == mealy_next(
                old(self).transitions(),
                old(self).outputs(),
                old(self).state(),
                input,
            ),
    {
        let next = match resolve(self.transitions, self.state, &input) {
            Some(n) => n,
            None => return Err(StepError::NoTransition),
        };
        let output = match resolve(self.outputs, self.state, &input) {
            Some(o) => o,
            None => return Err(StepError::NoOutput),
        };
        self.state = next;
        Ok(output)
    }

    /// The current state.
    pub fn current_state(&self) -> (r: u8)
        ensures
            r == self.state(),
    {
        self.state
    }

    /// The machine as `reset(s)` leaves it: in state `s`, over the same tables.
    pub closed spec fn reset_to(&self, s: u8) -> Self {
        Mealy { state: s, ..*self }
    }

    /// Moves the machine to `state`, whatever it was and whatever the tables
    /// hold.
    pub fn reset(&mut self, state: u8)
        ensures
            *final(self) == old(self).reset_to(state),
            final(self).state() == state,
            final(self).transitions() == old(self).transitions(),
            final(self).outputs() == old(self).outputs(),
    {
        self.state = state;
    }
}

/// After `reset(s)` the current state is `s`, whatever the machine's history
/// and whatever its tables hold; the tables stay as they were.
pub proof fn lemma_reset_then_state<I: Copy + Eq + 'static, O: Copy + 'static>(m: Mealy<I, O>, s: u8)
    ensures
        m.reset_to(s).state() == s,
        m.reset_to(s).transitions() == m.transitions(),
        m.reset_to(s).outputs() == m.outputs(),
{
}

} // verus!

verus! {

/// A Mealy step that fails leaves the state as it was: a missing transition
/// and a missing output alike commit nothing.
pub proof fn lemma_failed_step_keeps_state<I: PartialEq, O>(
    transitions: Seq<(u8, I, u8)>,
    outputs: Seq<(u8, I, O)>,
    s: u8,
    i: I,
)
    requires
        mealy_result(transitions, outputs, s, i) is Err,
    ensures
        mealy_next(transitions, outputs, s, i) == s,
{
}

} // verus!
