//! The execution trace and its generator.
//!
//! A trace is a row-major matrix over the field: one row per execution step,
//! two columns. The generator lays down the Fibonacci run: row 0 is the pair
//! of identities `(0, 1)`, and each later row is obtained from the one
//! before it by the step `(a, b) -> (b, a + b)`.

use vstd::prelude::*;

use crate::error::AirError;
use crate::field::{add_mod, Fp};

verus! {

/// The Fibonacci sequence over the field, by canonical representative.
pub open spec fn fib(i: nat) -> nat
    decreases i,
{
    if i == 0 {
        0
    } else if i == 1 {
        1
    } else {
        add_mod(fib((i - 2) as nat), fib((i - 1) as nat))
    }
}

/// A window of one trace row: its two column entries.
#[derive(Clone, Copy, Debug, PartialEq, Eq, Structural)]
pub struct Row {
    pub c0: Fp,
    pub c1: Fp,
}

/// A row-major trace matrix.
pub struct TraceMatrix {
    pub values: Vec<Fp>,
    pub width: usize,
}

impl TraceMatrix {
    /// The stored values fill whole rows of a positive width.
    pub open spec fn wf(self) -> bool {
        self.width > 0 && self.values@.len() as int % (self.width as int) == 0
    }

    pub open spec fn num_rows(self) -> int {
        self.values@.len() as int / (self.width as int)
    }

    /// The entry at row `i`, column `j`, for the trace width of two columns.
    pub open spec fn entry(self, i: int, j: int) -> Fp {
        self.values@[2 * i + j]
    }

    /// The window at row `i`, for the trace width of two columns.
    pub open spec fn row(self, i: int) -> Row {
        Row { c0: self.entry(i, 0), c1: self.entry(i, 1) }
    }

    pub fn new(values: Vec<Fp>, width: usize) -> (r: TraceMatrix)
        requires
            width > 0,
            values@.len() as int % (width as int) == 0,
        ensures
            r.values@ == values@,
            r.width == width,
            r.wf(),
    {
        TraceMatrix { values, width }
    }

    pub fn height(&self) -> (r: usize)
        requires
            self.wf(),
        ensures
            r as int == self.num_rows(),
    {
        self.values.len() / self.width
    }

    pub fn row_at(&self, i: usize) -> (r: Row)
        requires
            self.wf(),
            self.width == 2,
            i < self.num_rows(),
        ensures
            r == self.row(i as int),
    {
        let len = self.values.len();
        proof {
            assert(len as int % 2 == 0);
            assert(2 * self.num_rows() == len as int);
            assert(2 * (i as int) + 1 < len as int);
        }
        Row { c0: self.values[2 * i], c1: self.values[2 * i + 1] }
    }
}

/// A trace of `n` rows holding the Fibonacci run: row `i` is
/// `(fib(i), fib(i + 1))`.
pub open spec fn is_fib_trace(t: TraceMatrix, n: nat) -> bool {
    &&& t.width == 2
    &&& t.values@.len() == 2 * n
    &&& t.num_rows() == n
    &&& forall|i: int| 0 <= i < n ==> (#[trigger] t.entry(i, 0)).value == fib(i as nat)
    &&& forall|i: int| 0 <= i < n ==> (#[trigger] t.entry(i, 1)).value == fib((i + 1) as nat)
}

/// Produces the execution trace for an instance of `num_steps` steps.
///
/// An instance of zero steps is structurally invalid and is rejected; any
/// other instance yields the `num_steps`-row Fibonacci trace.
pub fn generate_air_trace(num_steps: usize) -> (r: Result<TraceMatrix, AirError>)
    ensures
        num_steps == 0 ==> r == Result::<TraceMatrix, AirError>::Err(AirError::InvalidInstance),
        num_steps >= 1 ==> (r matches Ok(t) && is_fib_trace(t, num_steps as nat) && t.wf()),
{
    if num_steps == 0 {
        return Err(AirError::InvalidInstance);
    }
    let mut values: Vec<Fp> = Vec::new();
    let mut a = Fp::zero();
    let mut b = Fp::one();
    let mut i: usize = 0;
    while i < num_steps
        invariant
            i <= num_steps,
            values@.len() == 2 * i,
            a.value == fib(i as nat),
            b.value == fib((i + 1) as nat),
            forall|j: int| 0 <= j < i ==> (#[trigger] values@[2 * j]).value == fib(j as nat),
            forall|j: int| 0 <= j < i ==> (#[trigger] values@[2 * j + 1]).value == fib((j + 1) as nat),
        decreases num_steps - i,
    {
        values.push(a);
        values.push(b);
        let c = a.add(b);
        a = b;
        b = c;
        i = i + 1;
    }
    Ok(TraceMatrix::new(values, 2))
}

/// Law: an `n`-row Fibonacci trace starts at the pair of identities, and
/// every later row is derived from the one before it by the transition
/// relation: it copies the previous second entry and appends the sum of the
/// previous pair.
pub proof fn lemma_trace_recurrence(t: TraceMatrix, n: nat)
    requires
        n >= 1,
        is_fib_trace(t, n),
    ensures
        t.width == 2,
        t.num_rows() == n,
        t.entry(0, 0).value == 0,
        t.entry(0, 1).value == 1,
        forall|i: int| 1 <= i < n ==> (#[trigger] t.entry(i, 0)).value == t.entry(i - 1, 1).value,
        forall|i: int| 1 <= i < n ==> (#[trigger] t.entry(i, 1)).value == add_mod(
            t.entry(i - 1, 0).value as nat,
            t.entry(i - 1, 1).value as nat,
        ),
{
    assert(fib(0) == 0);
    assert(fib(1) == 1);
    assert forall|i: int| 1 <= i < n implies (#[trigger] t.entry(i, 1)).value == add_mod(
        t.entry(i - 1, 0).value as nat,
        t.entry(i - 1, 1).value as nat,
    ) by {
        assert(t.entry(i - 1, 0).value == fib((i - 1) as nat));
        assert(t.entry(i - 1, 1).value == fib(i as nat));
        assert(fib((i + 1) as nat) == add_mod(fib((i - 1) as nat), fib(i as nat)));
    }
}

} // verus!
