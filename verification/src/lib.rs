//! A Monte Carlo combat simulator for an endless, wave-based ladder.
//!
//! The crate models one player build ("hunter") fighting through stages of
//! enemies under a discrete-event scheduler, together with a constrained
//! random generator of talent and attribute allocations.  All fractional
//! quantities (health, damage, chances, seconds) are held in fixed-point
//! micro-units so that every step of a playout is exact integer arithmetic.

pub mod build_generator;
pub mod config;
pub mod enemy;
pub mod events;
pub mod fixed;
pub mod hunter;
pub mod rng;
pub mod simulation;
pub mod stats;

use vstd::prelude::*;

verus! {

/// Number of micro-units in one whole unit (1.0 == 1_000_000).
pub const SCALE: u64 = 1_000_000;

} // verus!
