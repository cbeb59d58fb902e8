//! Moore machine: the output depends on the current state alone.
use vstd::prelude::*;
use vstd::std_specs::cmp::PartialEqSpec;

use crate::table::{lookup, resolve};
use crate::StepError;

verus! {

/// A Moore machine over a static transition table `(from, input, to)` and a
/// static output array indexed by state.
pub struct Moore<I: 'static, O: 'static> {
    state: u8,
    transitions: &'static [(u8, I, u8)],
    outputs: &'static [O],
}

/// The output of state `s`: entry `s` of the output array, or `NoOutput`
/// where the array is shorter.
pub open spec fn output_of<O>(outputs: Seq<O>, s: u8) -> Result<O, StepError> {
    if (s as int) < outputs.len() {
        Ok(outputs[s as int])
    } else {
        Err(StepError::NoOutput)
    }
}

/// The state after a Moore step from `s` on `i`: the next state whenever a
/// transition exists, whether or not that state has an output.
pub open spec fn moore_next<I: PartialEq>(transitions: Seq<(u8, I, u8)>, s: u8, i: I) -> u8 {
    match lookup(transitions, s, i) {
        Some(n) => n,
        None => s,
    }
}

/// What a Moore step returns from state `s` on input `i`: the output of the
/// state it moves to.
pub open spec fn moore_result<I: PartialEq, O>(
    transitions: Seq<(u8, I, u8)>,
    outputs: Seq<O>,
    s: u8,
    i: I,
) -> Result<O, StepError> {
    match lookup(transitions, s, i) {
        None => Err(StepError::NoTransition),
        Some(n) => output_of(outputs, n),
    }
}

impl<I: Copy + Eq + 'static, O: Copy + 'static> Moore<I, O> {
    /// The current state.
    pub closed spec fn state(&self) -> u8 {
        self.state
    }

    /// The transition table, in order.
    pub closed spec fn transitions(&self) -> Seq<(u8, I, u8)> {
        self.transitions@
    }

    /// The output array, indexed by state.
    pub closed spec fn outputs(&self) -> Seq<O> {
        self.outputs@
    }

    /// Builds a machine in `initial_state` over the given tables, which are
    /// taken as they are.
    pub fn new(initial_state: u8, transitions: &'static [(u8, I, u8)], outputs: &'static [O]) -> (r:
        Self)
        ensures
            r.state() == initial_state,
            r.transitions() == transitions@,
            r.outputs() == outputs@,
    {
        Moore { state: initial_state, transitions, outputs }
    }

    /// Feeds one input. Once a transition is found it is committed, and the
    /// output of the new state is returned; a missing output does not undo
    /// the transition.
    pub fn step(&mut self, input: I) -> (r: Result<O, StepError>)
        ensures
            final(self).transitions() == old(self).transitions(),
            final(self).outputs() == old(self).outputs(),
            r == Err::<O, StepError>(StepError::NoTransition) ==> final(self).state() == old(
                self,
            ).state(),
            r != Err::<O, StepError>(StepError::NoTransition) ==> {
                &&& r == output_of(final(self).outputs(), final(self).state())
                &&& exists|k: int|
                    0 <= k < old(self).transitions().len()
                        && (#[trigger] old(self).transitions()[k]).0 == old(self).state()
                        && final(self).state() == old(self).transitions()[k].2
            },
            I::obeys_eq_spec() ==> r == moore_result(
                old(self).transitions(),
                old(self).outputs(),
                old(self).state(),
                input,
            ),
            I::obeys_eq_spec() ==> final(self).state() == moore_next(
                old(self).transitions(),
                old(self).state(),
                input,
            ),
    {
        let next = match resolve(self.transitions, self.state, &input) {
            Some(n) => n,
            None => return Err(StepError::NoTransition),
        };
        self.state = next;
        self.current_output()
    }

    /// The current state.
    pub fn current_state(&self) -> (r: u8)
        ensures
            r == self.state(),
    {
        self.state
    }

    /// The output of the current state, without a transition.
    pub fn current_output(&self) -> (r: Result<O, StepError>)
        ensures
            r == output_of(self.outputs(), self.state()),
    {
        if (self.state as usize) < self.outputs.len() {
            Ok(self.outputs[self.state as usize])
        } else {
            Err(StepError::NoOutput)
        }
    }

    /// The machine as `reset(s)` leaves it: in state `s`, over the same tables.
    pub closed spec fn reset_to(&self, s: u8) -> Self {
        Moore { state: s, ..*self }
    }

    /// Moves the machine to `state`, whatever it was and whatever the tables
    /// hold.
    pub fn reset(&mut self, state: u8)
        ensures
            *final(self) == old(self).reset_to(state),
            final(self).state() == state,
            final(self).transitions() == old(self).transitions(),
            final(self).outputs() == old(self).outputs(),
    {
        self.state = state;
    }
}

/// After `reset(s)` the current state is `s`, whatever the machine's history
/// and whatever its tables hold; the tables stay as they were.
pub proof fn lemma_reset_then_state<I: Copy + Eq + 'static, O: Copy + 'static>(m: Moore<I, O>, s: u8)
    ensures
        m.reset_to(s).state() == s,
        m.reset_to(s).transitions() == m.transitions(),
        m.reset_to(s).outputs() == m.outputs(),
{
}

} // verus!

verus! {

/// A Moore step without a transition leaves the state as it was.
pub proof fn lemma_no_transition_keeps_state<I: PartialEq, O>(
    transitions: Seq<(u8, I, u8)>,
    outputs: Seq<O>,
    s: u8,
    i: I,
)
    requires
        moore_result(transitions, outputs, s, i) == Err::<O, StepError>(StepError::NoTransition),
    ensures
        moore_next(transitions, s, i) == s,
{
}

/// A Moore step that finds a transition but no output still commits it: the
/// state becomes the resolved next state, which has no output.
pub proof fn lemma_no_output_commits<I: PartialEq, O>(
    transitions: Seq<(u8, I, u8)>,
    outputs: Seq<O>,
    s: u8,
    i: I,
)
    requires
        moore_result(transitions, outputs, s, i) == Err::<O, StepError>(StepError::NoOutput),
    ensures
        lookup(transitions, s, i) == Some(moore_next(transitions, s, i)),
        output_of(outputs, moore_next(transitions, s, i)) == Err::<O, StepError>(
            StepError::NoOutput,
        ),
{
}

} // verus!
