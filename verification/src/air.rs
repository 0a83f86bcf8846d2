//! The constraint evaluator: the algebraic intermediate representation of
//! a valid Fibonacci execution.
//!
//! `MyAir` declares the trace width and the instance's target final value,
//! and asserts the boundary and transition constraints over a window of two
//! rows. The row context arrives as three independent selectors, since the
//! first-row, transition and last-row contexts overlap on short traces.
//! Assertions are emitted through a builder that records each violated
//! constraint; an assertion over a window that satisfies the constraints
//! records nothing.

use vstd::prelude::*;

use crate::error::{AirError, Constraint};
use crate::field::{add_mod, reduce, Fp};
use crate::trace::{fib, is_fib_trace, Row, TraceMatrix};

verus! {

/// The AIR definition: the instance parameters that fix the trace layout
/// and the boundary constraints. Immutable; the same value must drive both
/// proving and verifying.
pub struct MyAir {
    pub num_steps: usize,
    pub final_value: u32,
}

/// The row-context selectors, as independent predicates: on a one-row trace
/// the first and last row coincide, so the selectors are not exclusive.
#[derive(Clone, Copy, Debug, PartialEq, Eq, Structural)]
pub struct RowFlags {
    pub is_first_row: bool,
    pub is_transition: bool,
    pub is_last_row: bool,
}

/// The assertion sink the evaluator emits through: it records each asserted
/// equality that fails, in assertion order.
pub struct ConstraintBuilder {
    pub violations: Vec<Constraint>,
}

impl ConstraintBuilder {
    pub fn new() -> (r: ConstraintBuilder)
        ensures
            r.violations@ == Seq::<Constraint>::empty(),
    {
        ConstraintBuilder { violations: Vec::new() }
    }

    /// Asserts `x == y` under the selector `active`: records `which` exactly
    /// when the selector is on and the equality fails.
    pub fn assert_eq_when(&mut self, active: bool, which: Constraint, x: Fp, y: Fp)
        ensures
            final(self).violations@ == old(self).violations@ + (if active && x.value != y.value {
                seq![which]
            } else {
                Seq::<Constraint>::empty()
            }),
    {
        if active && x.value != y.value {
            self.violations.push(which);
            proof {
                assert(self.violations@ =~= old(self).violations@ + seq![which]);
            }
        } else {
            proof {
                assert(self.violations@ =~= old(self).violations@ + Seq::<Constraint>::empty());
            }
        }
    }
}

/// The constraints violated by one window: the sequence of constraint names
/// the evaluator records over `local`, `next` and the given row context, in
/// assertion order.
pub open spec fn row_violations(air: MyAir, local: Row, next: Row, flags: RowFlags) -> Seq<
    Constraint,
> {
    (if flags.is_first_row && local.c0.value != 0 {
        seq![Constraint::FirstRowCol0]
    } else {
        Seq::<Constraint>::empty()
    }) + (if flags.is_first_row && local.c1.value != 1 {
        seq![Constraint::FirstRowCol1]
    } else {
        Seq::<Constraint>::empty()
    }) + (if flags.is_transition && next.c0.value != local.c1.value {
        seq![Constraint::TransitionCol0]
    } else {
        Seq::<Constraint>::empty()
    }) + (if flags.is_transition && next.c1.value != add_mod(
        local.c0.value as nat,
        local.c1.value as nat,
    ) {
        seq![Constraint::TransitionCol1]
    } else {
        Seq::<Constraint>::empty()
    }) + (if flags.is_last_row && local.c1.value != reduce(air.final_value as nat) {
        seq![Constraint::LastRowCol1]
    } else {
        Seq::<Constraint>::empty()
    })
}

/// The row context the backend supplies for row `i` of an `n`-row trace:
/// the transition selector covers the `n - 1` genuine adjacent pairs and
/// excludes the wrap-around pair from the last row back to the first.
pub open spec fn flags_for(i: int, n: int) -> RowFlags {
    RowFlags {
        is_first_row: i == 0,
        is_transition: i + 1 < n,
        is_last_row: i == n - 1,
    }
}

/// The row the evaluator reads as "next" at row `i`: the following row, or
/// the first row again at the wrap-around edge of the cyclic domain.
pub open spec fn next_index(i: int, n: int) -> int {
    if i + 1 < n {
        i + 1
    } else {
        0
    }
}

/// The constraints violated at row `i` of the trace.
pub open spec fn trace_row_violations(air: MyAir, t: TraceMatrix, i: int) -> Seq<Constraint> {
    row_violations(air, t.row(i), t.row(next_index(i, t.num_rows())), flags_for(i, t.num_rows()))
}

pub open spec fn trace_row_ok(air: MyAir, t: TraceMatrix, i: int) -> bool {
    trace_row_violations(air, t, i).len() == 0
}

/// A valid execution: no row of the trace violates any constraint.
pub open spec fn constraints_hold(air: MyAir, t: TraceMatrix) -> bool {
    forall|i: int| 0 <= i < t.num_rows() ==> #[trigger] trace_row_ok(air, t, i)
}

impl MyAir {
    /// The number of columns a trace must have.
    pub fn width(&self) -> (r: usize)
        ensures
            r == 2,
    {
        2
    }

    /// Asserts the constraint set over one window of two rows, under the
    /// given row-context selectors, emitting through `builder`.
    pub fn eval(&self, local: Row, next: Row, flags: RowFlags, builder: &mut ConstraintBuilder)
        ensures
            final(builder).violations@ == old(builder).violations@ + row_violations(
                *self,
                local,
                next,
                flags,
            ),
    {
        let zero = Fp::zero();
        let one = Fp::one();

        // Enforce starting values
        builder.assert_eq_when(flags.is_first_row, Constraint::FirstRowCol0, local.c0, zero);
        builder.assert_eq_when(flags.is_first_row, Constraint::FirstRowCol1, local.c1, one);

        // Enforce state transition constraints
        builder.assert_eq_when(flags.is_transition, Constraint::TransitionCol0, next.c0, local.c1);
        let sum = local.c0.add(local.c1);
        builder.assert_eq_when(flags.is_transition, Constraint::TransitionCol1, next.c1, sum);

        // Constrain the final value
        let fv = Fp::from_u32(self.final_value);
        builder.assert_eq_when(flags.is_last_row, Constraint::LastRowCol1, local.c1, fv);

        proof {
            assert(builder.violations@ =~= old(builder).violations@ + row_violations(
                *self,
                local,
                next,
                flags,
            ));
        }
    }

    /// Runs the evaluator over every row of an actual trace, with the row
    /// context the backend would supply for each. Returns the first
    /// violation found, in row order and assertion order, or rejects a
    /// trace whose column count disagrees with the declared width.
    pub fn check_trace(&self, t: &TraceMatrix) -> (r: Result<(), AirError>)
        requires
            t.wf(),
        ensures
            ({
                match r {
                    Ok(()) => t.width == 2 && constraints_hold(*self, *t),
                    Err(AirError::InvalidTraceShape) => t.width != 2,
                    Err(AirError::ConstraintViolation(row, c)) => {
                        &&& t.width == 2
                        &&& !constraints_hold(*self, *t)
                        &&& 0 <= (row as int) < t.num_rows()
                        &&& !trace_row_ok(*self, *t, row as int)
                        &&& c == trace_row_violations(*self, *t, row as int)[0]
                        &&& forall|j: int| 0 <= j < row ==> trace_row_ok(*self, *t, j)
                    },
                    Err(AirError::InvalidInstance) => false,
                }
            }),
    {
        if self.width() != t.width {
            return Err(AirError::InvalidTraceShape);
        }
        let n = t.height();
        let mut i: usize = 0;
        while i < n
            invariant
                t.wf(),
                t.width == 2,
                n as int == t.num_rows(),
                i <= n,
                forall|j: int| 0 <= j < i ==> trace_row_ok(*self, *t, j),
            decreases n - i,
        {
            let local = t.row_at(i);
            let ni: usize = if i + 1 < n {
                i + 1
            } else {
                0
            };
            let next = t.row_at(ni);
            let flags = RowFlags {
                is_first_row: i == 0,
                is_transition: i + 1 < n,
                is_last_row: i + 1 == n,
            };
            let mut builder = ConstraintBuilder::new();
            self.eval(local, next, flags, &mut builder);
            if builder.violations.len() > 0 {
                let c = builder.violations[0];
                proof {
                    assert(ni as int == next_index(i as int, t.num_rows()));
                    assert(flags == flags_for(i as int, t.num_rows()));
                    assert(builder.violations@ =~= trace_row_violations(*self, *t, i as int));
                    assert(!trace_row_ok(*self, *t, i as int));
                    assert(!constraints_hold(*self, *t));
                }
                return Err(AirError::ConstraintViolation(i, c));
            }
            i = i + 1;
        }
        Ok(())
    }
}

/// Law: the evaluator accepts a generated trace whose declared final value
/// agrees with the trace's actual last entry: no constraint is violated on
/// any row.
pub proof fn lemma_generated_trace_satisfies(air: MyAir, t: TraceMatrix)
    requires
        air.num_steps >= 1,
        is_fib_trace(t, air.num_steps as nat),
        reduce(air.final_value as nat) == fib(air.num_steps as nat),
    ensures
        constraints_hold(air, t),
{
    let n = t.num_rows();
    assert forall|i: int| 0 <= i < n implies #[trigger] trace_row_ok(air, t, i) by {
        assert(fib(0) == 0);
        assert(fib(1) == 1);
        if i + 1 < n {
            assert(t.entry(i + 1, 0).value == fib((i + 1) as nat));
            assert(t.entry(i + 1, 1).value == fib((i + 2) as nat));
            assert(fib((i + 2) as nat) == add_mod(fib(i as nat), fib((i + 1) as nat)));
        }
        if i == n - 1 {
            assert(t.entry(i, 1).value == fib(n as nat));
        }
        assert(trace_row_violations(air, t, i).len() == 0);
    }
}

/// Each row of a constraint-satisfying trace holds the Fibonacci pair for
/// its index: the first row by the first-row constraints, every later row
/// by the transition constraints on the pair before it.
proof fn lemma_row_is_fib(air: MyAir, t: TraceMatrix, i: int)
    requires
        t.width == 2,
        0 <= i < t.num_rows(),
        constraints_hold(air, t),
    ensures
        t.entry(i, 0).value == fib(i as nat),
        t.entry(i, 1).value == fib((i + 1) as nat),
    decreases i,
{
    let n = t.num_rows();
    if i == 0 {
        assert(trace_row_ok(air, t, 0));
        assert(fib(0) == 0);
        assert(fib(1) == 1);
    } else {
        lemma_row_is_fib(air, t, i - 1);
        assert(trace_row_ok(air, t, i - 1));
        assert(next_index(i - 1, n) == i);
        assert(flags_for(i - 1, n).is_transition);
        assert(fib((i + 1) as nat) == add_mod(fib((i - 1) as nat), fib(i as nat)));
    }
}

/// Law: the constraint set pins the execution. Any trace of the declared
/// width that satisfies every constraint is the Fibonacci trace of its
/// length, and the declared final value agrees with the trace's actual
/// last entry.
pub proof fn lemma_constraints_pin_the_trace(air: MyAir, t: TraceMatrix)
    requires
        t.wf(),
        t.width == 2,
        t.num_rows() >= 1,
        constraints_hold(air, t),
    ensures
        is_fib_trace(t, t.num_rows() as nat),
        reduce(air.final_value as nat) == fib(t.num_rows() as nat),
{
    let n = t.num_rows();
    assert(t.values@.len() as int % 2 == 0);
    assert(t.values@.len() == 2 * n);
    assert forall|i: int| 0 <= i < n implies (#[trigger] t.entry(i, 0)).value == fib(i as nat) by {
        lemma_row_is_fib(air, t, i);
    }
    assert forall|i: int| 0 <= i < n implies (#[trigger] t.entry(i, 1)).value == fib(
        (i + 1) as nat,
    ) by {
        lemma_row_is_fib(air, t, i);
    }
    assert(trace_row_ok(air, t, n - 1));
    assert(flags_for(n - 1, n).is_last_row);
}

/// Law: a trace that breaks the transition relation between two genuine
/// adjacent rows violates a transition constraint.
pub proof fn lemma_transition_violation(air: MyAir, t: TraceMatrix, i: int)
    requires
        t.width == 2,
        0 <= i,
        i + 1 < t.num_rows(),
        t.entry(i + 1, 0).value != t.entry(i, 1).value || t.entry(i + 1, 1).value != add_mod(
            t.entry(i, 0).value as nat,
            t.entry(i, 1).value as nat,
        ),
    ensures
        !constraints_hold(air, t),
{
    let n = t.num_rows();
    assert(next_index(i, n) == i + 1);
    assert(trace_row_violations(air, t, i).len() > 0);
    assert(!trace_row_ok(air, t, i));
}

/// Law: a declared final value that disagrees with the trace's actual last
/// entry violates the last-row constraint.
pub proof fn lemma_last_row_violation(air: MyAir, t: TraceMatrix)
    requires
        t.width == 2,
        t.num_rows() >= 1,
        t.entry(t.num_rows() - 1, 1).value != reduce(air.final_value as nat),
    ensures
        !constraints_hold(air, t),
{
    let n = t.num_rows();
    assert(flags_for(n - 1, n).is_last_row);
    assert(trace_row_violations(air, t, n - 1).len() > 0);
    assert(!trace_row_ok(air, t, n - 1));
}

} // verus!
