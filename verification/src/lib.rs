//! A small deterministic, non-cryptographic pseudorandom generator.
//!
//! The generator keeps 128 bits of state in two 64-bit words.  A seeding
//! procedure avalanche-mixes an arbitrary 128-bit seed into a well-distributed
//! initial state, and a step function advances the state while emitting one
//! 64-bit word per call.  Every derived operation — booleans, bounded and
//! ranged integers, unit-interval bit patterns, stream splitting, byte
//! fills — consumes whole words from that single step function, so a seed and
//! a call sequence always reproduce the same outputs.

pub mod open01;
pub mod range;
pub mod rng;
pub mod stream;

pub use rng::Rng;
