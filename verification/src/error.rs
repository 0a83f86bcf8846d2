//! The failures the core distinguishes, and the names of the constraints
//! a trace can violate.

use vstd::prelude::*;

verus! {

/// One of the five constraints the evaluator asserts, named by the row
/// context it applies in and the column it reads.
#[derive(Clone, Copy, Debug, PartialEq, Eq, Structural)]
pub enum Constraint {
    /// First row, column 0: the trace starts at the additive identity.
    FirstRowCol0,
    /// First row, column 1: the trace starts at the multiplicative identity.
    FirstRowCol1,
    /// Transition, column 0: the next row's first entry copies the current
    /// row's second entry.
    TransitionCol0,
    /// Transition, column 1: the next row's second entry is the sum of the
    /// current row's entries.
    TransitionCol1,
    /// Last row, column 1: the trace ends at the declared final value.
    LastRowCol1,
}

/// The errors the core can surface.
#[derive(Clone, Copy, Debug, PartialEq, Eq, Structural)]
pub enum AirError {
    /// The instance parameters are structurally invalid: a proof over an
    /// empty trace is meaningless.
    InvalidInstance,
    /// A trace's column count disagrees with the declared width.
    InvalidTraceShape,
    /// A constraint failed over an actual trace: the first row on which a
    /// violation occurs, and the first constraint violated there.
    ConstraintViolation(usize, Constraint),
}

} // verus!
