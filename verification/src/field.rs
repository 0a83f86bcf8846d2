//! The prime field the trace is written over.
//!
//! The backend proves over the BabyBear field, whose modulus is
//! `P = 2^31 - 2^27 + 1 = 2013265921`. The trace generator and the
//! constraint evaluator only ever add field elements and compare them,
//! so the library carries a field element as its canonical representative:
//! a `u32` below `P`.

use vstd::prelude::*;

verus! {

/// The field modulus: `2^31 - 2^27 + 1`.
pub const P: u32 = 2013265921;

/// Addition of canonical representatives, modulo `P`.
pub open spec fn add_mod(a: nat, b: nat) -> nat {
    (a + b) % (P as nat)
}

/// The canonical representative of an arbitrary `u32`.
pub open spec fn reduce(v: nat) -> nat {
    v % (P as nat)
}

/// A field element, held as its canonical representative.
#[derive(Clone, Copy, Debug, PartialEq, Eq, Structural)]
pub struct Fp {
    pub value: u32,
}

impl Fp {
    /// A field element is well formed when its representative is canonical.
    pub open spec fn wf(self) -> bool {
        self.value < P
    }

    /// The additive identity.
    pub fn zero() -> (r: Fp)
        ensures
            r.wf(),
            r.value == 0,
    {
        Fp { value: 0 }
    }

    /// The multiplicative identity.
    pub fn one() -> (r: Fp)
        ensures
            r.wf(),
            r.value == 1,
    {
        Fp { value: 1 }
    }

    /// The field element with the given canonical integer representation.
    pub fn from_u32(v: u32) -> (r: Fp)
        ensures
            r.wf(),
            r.value == reduce(v as nat),
    {
        Fp { value: v % P }
    }

    /// Field addition.
    pub fn add(self, other: Fp) -> (r: Fp)
        ensures
            r.wf(),
            r.value == add_mod(self.value as nat, other.value as nat),
    {
        let s: u64 = self.value as u64 + other.value as u64;
        let m: u64 = s % (P as u64);
        Fp { value: m as u32 }
    }
}

} // verus!
