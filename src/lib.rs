//! Small finite-state machines over static tables: Mealy machines, whose
//! output depends on the state and the input, and Moore machines, whose
//! output depends on the state alone.
use vstd::prelude::*;

pub mod table;
pub mod mealy;
pub mod moore;

pub use mealy::Mealy;
pub use moore::Moore;
pub use table::resolve;

verus! {

/// Why a step, or a Moore output query, did not produce an output.
#[derive(PartialEq, Eq, Structural, Clone, Copy, Debug)]
pub enum StepError {
    /// No transition is defined for the pair (state, input).
    NoTransition,
    /// No output is defined: a Mealy machine found no (state, input) entry,
    /// or a Moore machine's state lies past the end of its output array.
    NoOutput,
}

} // verus!
