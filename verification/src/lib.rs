//! A verified core for a small algebraic constraint-and-proof pipeline.
//!
//! The library holds the two pieces of original logic the pipeline is built
//! on: the trace generator, which lays out a Fibonacci execution trace as a
//! row-major matrix over a prime field, and the constraint evaluator, which
//! states the boundary and transition constraints a valid trace satisfies.
//! An external proving backend consumes both; the backend itself is wiring
//! around this crate, not part of it.

pub mod air;
pub mod error;
pub mod field;
pub mod trace;
