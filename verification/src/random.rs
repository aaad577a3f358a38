//! The exclusive-access generator: every sampling call needs exclusive
//! mutable access, so the type system itself rules out racing callers. No
//! internal synchronization is paid for. For shared multi-threaded access
//! see [`crate::random_locking`].

use vstd::prelude::*;

use crate::Algorithm;
use crate::generator::GeneratorCore;
use crate::generator::Origin;
use crate::generator::Request;
use crate::generator::replay;
use crate::generator::response;
use crate::sample::Sample;

verus! {

/// A random-number generator for single-owner use: sampling requires `&mut`
/// access, so concurrent calls on one instance cannot exist.
///
/// A generator is either entropy-seeded ([`RandomNumberGenerator::new`]) or
/// deterministic ([`RandomNumberGenerator::seeded`]); a deterministic one
/// answers every sampling request with a value that is a pure function of
/// its algorithm, its seed, and the requests already served.
pub struct RandomNumberGenerator {
    core: GeneratorCore,
}

impl RandomNumberGenerator {
    /// Which algorithm this generator runs.
    pub closed spec fn algorithm(self) -> Algorithm {
        self.core.algorithm()
    }

    /// How this generator was initialized.
    pub closed spec fn origin(self) -> Origin {
        self.core.origin()
    }

    /// Whether this generator replays a reproducible stream.
    pub open spec fn is_seeded(self) -> bool {
        self.origin() is Seeded
    }

    /// The seed of a deterministic generator.
    pub open spec fn seed(self) -> u64 {
        self.origin()->seed
    }

    /// The requests this generator has served so far, oldest first.
    pub closed spec fn served(self) -> Seq<Request> {
        self.core.served()
    }

    /// An entropy-seeded generator over the default algorithm: fast to
    /// construct, not reproducible.
    pub fn new() -> (r: Self)
        ensures
            r.algorithm() == Algorithm::Standard,
            r.origin() == Origin::Entropy,
            r.served() == Seq::<Request>::empty(),
    {
        Self::new_with(Algorithm::Standard)
    }

    /// An entropy-seeded generator over the given algorithm.
    pub fn new_with(algorithm: Algorithm) -> (r: Self)
        ensures
            r.algorithm() == algorithm,
            r.origin() == Origin::Entropy,
            r.served() == Seq::<Request>::empty(),
    {
        RandomNumberGenerator { core: GeneratorCore::entropy(algorithm) }
    }

    /// A deterministic generator over the default algorithm: for one seed,
    /// every instance answers any fixed sequence of sampling requests with
    /// the same value sequence.
    pub fn seeded(seed: u64) -> (r: Self)
        ensures
            r.algorithm() == Algorithm::Standard,
            r.origin() == (Origin::Seeded { seed }),
            r.served() == Seq::<Request>::empty(),
    {
        Self::seeded_with(Algorithm::Standard, seed)
    }

    /// A deterministic generator over the given algorithm.
    pub fn seeded_with(algorithm: Algorithm, seed: u64) -> (r: Self)
        ensures
            r.algorithm() == algorithm,
            r.origin() == (Origin::Seeded { seed }),
            r.served() == Seq::<Request>::empty(),
    {
        RandomNumberGenerator { core: GeneratorCore::seeded(algorithm, seed) }
    }

    /// A value drawn uniformly from the half-open range `[low, high)`.
    ///
    /// The range must be non-empty: `low < high`. On a deterministic
    /// generator the value returned is exactly the one named by
    /// [`Sample::span_value_of`] for this generator's algorithm, seed and
    /// request history.
    pub fn range<T: Sample>(&mut self, low: T, high: T) -> (r: T)
        requires
            low.to_int() < high.to_int(),
        ensures
            low.to_int() <= r.to_int() < high.to_int(),
            final(self).algorithm() == old(self).algorithm(),
            final(self).origin() == old(self).origin(),
            final(self).served() == old(self).served().push(T::span_request(low, high)),
            old(self).is_seeded() ==> r.to_int() == T::span_value_of(
                old(self).algorithm(),
                old(self).seed(),
                old(self).served(),
                low,
                high,
            ),
    {
        T::sample_span(&mut self.core, low, high)
    }

    /// A value drawn uniformly from the closed range `[low, high]`.
    ///
    /// The range must be non-empty: `low <= high`. On a deterministic
    /// generator the value returned is exactly the one named by
    /// [`Sample::span_inclusive_value_of`].
    pub fn range_inclusive<T: Sample>(&mut self, low: T, high: T) -> (r: T)
        requires
            low.to_int() <= high.to_int(),
        ensures
            low.to_int() <= r.to_int() <= high.to_int(),
            final(self).algorithm() == old(self).algorithm(),
            final(self).origin() == old(self).origin(),
            final(self).served() == old(self).served().push(T::span_inclusive_request(low, high)),
            old(self).is_seeded() ==> r.to_int() == T::span_inclusive_value_of(
                old(self).algorithm(),
                old(self).seed(),
                old(self).served(),
                low,
                high,
            ),
    {
        T::sample_span_inclusive(&mut self.core, low, high)
    }

    /// A value drawn uniformly over the whole domain of the requested type.
    ///
    /// On a deterministic generator the value returned is exactly the one
    /// named by [`Sample::next_value_of`].
    pub fn next<T: Sample>(&mut self) -> (r: T)
        ensures
            T::min_int() <= r.to_int() <= T::max_int(),
            final(self).algorithm() == old(self).algorithm(),
            final(self).origin() == old(self).origin(),
            final(self).served() == old(self).served().push(T::next_request()),
            old(self).is_seeded() ==> r.to_int() == T::next_value_of(
                old(self).algorithm(),
                old(self).seed(),
                old(self).served(),
            ),
    {
        T::sample_next(&mut self.core)
    }
}

impl Default for RandomNumberGenerator {
    /// An entropy-seeded generator over the default algorithm, as
    /// [`RandomNumberGenerator::new`] builds.
    fn default() -> (r: Self)
        ensures
            r.algorithm() == Algorithm::Standard,
            r.origin() == Origin::Entropy,
            r.served() == Seq::<Request>::empty(),
    {
        Self::new()
    }
}

/// Determinism law: what a deterministic generator answers to a sampling
/// request is fixed by its algorithm, its seed, and the requests it has
/// already served. Two independently constructed deterministic generators
/// with the same algorithm and seed that have served the same requests
/// therefore answer the next request — and, by induction over the calls,
/// every later request of a fixed call sequence — identically.
pub proof fn lemma_deterministic_generators_agree(
    a: RandomNumberGenerator,
    b: RandomNumberGenerator,
    req: Request,
)
    requires
        a.is_seeded(),
        b.is_seeded(),
        a.algorithm() == b.algorithm(),
        a.seed() == b.seed(),
        a.served() == b.served(),
    ensures
        response(a.algorithm(), a.seed(), a.served(), req) == response(
            b.algorithm(),
            b.seed(),
            b.served(),
            req,
        ),
{
}

/// Determinism law over whole call sequences: two independently constructed
/// deterministic generators with the same algorithm and seed answer any
/// fixed sequence of sampling requests — however long — with identical
/// value sequences, regardless of what other generator instances do in
/// between. The value each call returns is tied to [`replay`] by the
/// sampling methods' own contracts.
pub proof fn lemma_seeded_replay_identical(
    a: RandomNumberGenerator,
    b: RandomNumberGenerator,
    reqs: Seq<Request>,
)
    requires
        a.is_seeded(),
        b.is_seeded(),
        a.algorithm() == b.algorithm(),
        a.seed() == b.seed(),
    ensures
        replay(a.algorithm(), a.seed(), reqs) == replay(b.algorithm(), b.seed(), reqs),
{
}

/// The host-integration adapter's marker: a host application registers one
/// entropy-seeded generator as a process-wide resource at startup and
/// retrieves it wherever a random value is needed. The registration itself
/// runs inside the host framework and therefore outside this crate.
pub struct RandomPlugin;

} // verus!
