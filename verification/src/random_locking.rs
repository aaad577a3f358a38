//! The shared-access generator: the core sits behind a verified
//! mutual-exclusion lock, so sampling needs only a shared reference and may
//! be issued from several threads at once. Callers pay the lock for every
//! draw; at most one in-flight call mutates the core at any instant, and no
//! ordering is promised across concurrent callers beyond that mutual
//! exclusion. Re-entering a sampling call while already inside one on the
//! same instance deadlocks, as with any non-reentrant lock.

use vstd::prelude::*;
use vstd::rwlock::RwLock;
use vstd::rwlock::RwLockPredicate;

use crate::Algorithm;
use crate::generator::GeneratorCore;
use crate::generator::Origin;
use crate::generator::Request;
use crate::sample::Sample;

verus! {

/// The lock invariant: whatever requests have been served, the core behind
/// the lock keeps the algorithm and origin it was built with.
pub struct GeneratorInv {
    /// The algorithm the locked generator was built over.
    pub alg: Algorithm,
    /// How the locked generator was initialized.
    pub origin: Origin,
}

impl RwLockPredicate<GeneratorCore> for GeneratorInv {
    open spec fn inv(self, v: GeneratorCore) -> bool {
        &&& v.algorithm() == self.alg
        &&& v.origin() == self.origin
    }
}

/// A random-number generator safe for concurrent shared access: sampling
/// takes only `&self`; internally every call acquires a mutual-exclusion
/// lock, draws from the core, and releases the lock before returning.
///
/// Because concurrent callers are serialized in whatever order the lock
/// grants, a caller cannot know which position in the stream it receives.
/// The contracts therefore promise, of every value, its bounds, and — on a
/// deterministic instance — that it comes from the seeded engine's named
/// stream at some request history; which history is fixed only by the
/// serialization order, which is left open.
pub struct RandomNumberGenerator {
    cell: RwLock<GeneratorCore, GeneratorInv>,
}

impl RandomNumberGenerator {
    /// Which algorithm this generator runs.
    pub closed spec fn algorithm(self) -> Algorithm {
        self.cell.pred().alg
    }

    /// How this generator was initialized.
    pub closed spec fn origin(self) -> Origin {
        self.cell.pred().origin
    }

    /// Whether the stream behind the lock is reproducible when calls are
    /// serialized the same way.
    pub open spec fn is_seeded(self) -> bool {
        self.origin() is Seeded
    }

    /// The seed of a deterministic generator.
    pub open spec fn seed(self) -> u64 {
        self.origin()->seed
    }

    /// An entropy-seeded shared generator over the default algorithm.
    pub fn new() -> (r: Self)
        ensures
            r.algorithm() == Algorithm::Standard,
            r.origin() == Origin::Entropy,
    {
        Self::new_with(Algorithm::Standard)
    }

    /// An entropy-seeded shared generator over the given algorithm.
    pub fn new_with(algorithm: Algorithm) -> (r: Self)
        ensures
            r.algorithm() == algorithm,
            r.origin() == Origin::Entropy,
    {
        let core = GeneratorCore::entropy(algorithm);
        let ghost inv = GeneratorInv { alg: algorithm, origin: Origin::Entropy };
        RandomNumberGenerator { cell: RwLock::new(core, Ghost(inv)) }
    }

    /// A deterministic shared generator over the default algorithm.
    pub fn seeded(seed: u64) -> (r: Self)
        ensures
            r.algorithm() == Algorithm::Standard,
            r.origin() == (Origin::Seeded { seed }),
    {
        Self::seeded_with(Algorithm::Standard, seed)
    }

    /// A deterministic shared generator over the given algorithm.
    pub fn seeded_with(algorithm: Algorithm, seed: u64) -> (r: Self)
        ensures
            r.algorithm() == algorithm,
            r.origin() == (Origin::Seeded { seed }),
    {
        let core = GeneratorCore::seeded(algorithm, seed);
        let ghost inv = GeneratorInv { alg: algorithm, origin: Origin::Seeded { seed } };
        RandomNumberGenerator { cell: RwLock::new(core, Ghost(inv)) }
    }

    /// A value drawn uniformly from the half-open range `[low, high)`.
    ///
    /// The range must be non-empty: `low < high`. On a deterministic
    /// generator the value is one of the seeded engine's named stream: it is
    /// [`Sample::span_value_of`] at some request history — which one depends
    /// only on how the lock serialized the callers, which is left open.
    pub fn range<T: Sample>(&self, low: T, high: T) -> (r: T)
        requires
            low.to_int() < high.to_int(),
        ensures
            low.to_int() <= r.to_int() < high.to_int(),
            self.is_seeded() ==> exists|h: Seq<Request>|
                r.to_int() == T::span_value_of(self.algorithm(), self.seed(), h, low, high),
    {
        let (mut core, handle) = self.cell.acquire_write();
        let ghost prior = core.served();
        let r = T::sample_span(&mut core, low, high);
        proof {
            if self.is_seeded() {
                assert(r.to_int() == T::span_value_of(
                    self.algorithm(),
                    self.seed(),
                    prior,
                    low,
                    high,
                ));
            }
        }
        handle.release_write(core);
        r
    }

    /// A value drawn uniformly from the closed range `[low, high]`.
    ///
    /// The range must be non-empty: `low <= high`. On a deterministic
    /// generator the value is [`Sample::span_inclusive_value_of`] at some
    /// request history, as with [`RandomNumberGenerator::range`].
    pub fn range_inclusive<T: Sample>(&self, low: T, high: T) -> (r: T)
        requires
            low.to_int() <= high.to_int(),
        ensures
            low.to_int() <= r.to_int() <= high.to_int(),
            self.is_seeded() ==> exists|h: Seq<Request>|
                r.to_int() == T::span_inclusive_value_of(
                    self.algorithm(),
                    self.seed(),
                    h,
                    low,
                    high,
                ),
    {
        let (mut core, handle) = self.cell.acquire_write();
        let ghost prior = core.served();
        let r = T::sample_span_inclusive(&mut core, low, high);
        proof {
            if self.is_seeded() {
                assert(r.to_int() == T::span_inclusive_value_of(
                    self.algorithm(),
                    self.seed(),
                    prior,
                    low,
                    high,
                ));
            }
        }
        handle.release_write(core);
        r
    }

    /// A value drawn uniformly over the whole domain of the requested type.
    ///
    /// On a deterministic generator the value is [`Sample::next_value_of`]
    /// at some request history, as with [`RandomNumberGenerator::range`].
    pub fn next<T: Sample>(&self) -> (r: T)
        ensures
            T::min_int() <= r.to_int() <= T::max_int(),
            self.is_seeded() ==> exists|h: Seq<Request>|
                r.to_int() == T::next_value_of(self.algorithm(), self.seed(), h),
    {
        let (mut core, handle) = self.cell.acquire_write();
        let ghost prior = core.served();
        let r = T::sample_next(&mut core);
        proof {
            if self.is_seeded() {
                assert(r.to_int() == T::next_value_of(self.algorithm(), self.seed(), prior));
            }
        }
        handle.release_write(core);
        r
    }
}

impl Default for RandomNumberGenerator {
    /// An entropy-seeded shared generator over the default algorithm, as
    /// [`RandomNumberGenerator::new`] builds.
    fn default() -> (r: Self)
        ensures
            r.algorithm() == Algorithm::Standard,
            r.origin() == Origin::Entropy,
    {
        Self::new()
    }
}

/// The host-integration adapter's marker for the shared variant: a host
/// application registers one entropy-seeded shared generator as a
/// process-wide resource at startup and samples it through shared
/// references from any of its threads. The registration itself runs inside
/// the host framework and therefore outside this crate.
pub struct RandomPlugin;


} // verus!
