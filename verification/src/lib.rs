//! Random-number-generation services for games and simulations.
//!
//! The crate offers one generator core and two wrappers around it that differ
//! only in their concurrency discipline:
//!
//! * [`random::RandomNumberGenerator`] requires exclusive mutable access for
//!   every sampling call (single-owner use, no internal synchronization);
//! * [`random_locking::RandomNumberGenerator`] keeps the core behind a
//!   mutual-exclusion lock, so sampling needs only a shared reference and may
//!   be called from several threads at once.
//!
//! Both variants can be seeded from operating-system entropy (`new`) or from
//! an explicit 64-bit seed (`seeded`); a seeded generator replays the same
//! value sequence for the same sequence of sampling requests.

use vstd::prelude::*;

pub mod generator;
pub mod random;
pub mod random_locking;
pub mod sample;

verus! {

/// The bit-stream algorithms a generator can be built over. The choice is
/// made once, at construction, and never changes afterwards.
#[derive(Clone, Copy, PartialEq, Eq, Structural, Debug)]
pub enum Algorithm {
    /// The general-purpose standard generator of the `rand` crate.
    Standard,
    /// The PCG family generator of the `rand_pcg` crate.
    Pcg,
    /// The xorshift generator of the `rand_xorshift` crate.
    XorShift,
}

} // verus!
