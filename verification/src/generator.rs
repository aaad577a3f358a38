//! The generator core: owns the algorithm-specific bit-generator state and
//! serves sampling requests over raw 64-bit words and 64-bit spans.
//!
//! The state itself is opaque; contracts speak about three observable
//! attributes of a generator: its [`Algorithm`], its [`Origin`], and the
//! sequence of [`Request`]s it has served so far. For a deterministic
//! (explicitly seeded) generator, the value answered to each request is a
//! pure function of those three attributes; that function is named by
//! [`word_value`], [`span_value`] and [`span_inclusive_value`].

use vstd::prelude::*;

use rand::Rng;
use rand::RngCore;
use rand::SeedableRng;

use crate::Algorithm;

verus! {

/// How a generator was initialized.
#[derive(Clone, Copy, PartialEq, Eq, Structural, Debug)]
pub enum Origin {
    /// Seeded from operating-system entropy; the value stream is not
    /// reproducible and nothing is promised of the values beyond their
    /// bounds.
    Entropy,
    /// Seeded from an explicit 64-bit value; the value stream is a pure
    /// function of the algorithm, the seed, and the requests served.
    Seeded { seed: u64 },
}

/// One sampling request, as recorded in a generator's request history.
#[derive(Clone, Copy, PartialEq, Eq, Structural, Debug)]
pub enum Request {
    /// A full-width 64-bit word was drawn.
    Word,
    /// A word was drawn uniformly from the half-open span `[lo, hi)`.
    Span { lo: u64, hi: u64 },
    /// A word was drawn uniformly from the closed span `[lo, hi]`.
    SpanInclusive { lo: u64, hi: u64 },
}

#[verifier::external_type_specification]
#[verifier::external_body]
pub struct ExStdRng(rand::rngs::StdRng);

#[verifier::external_type_specification]
#[verifier::external_body]
pub struct ExMcg128Xsl64(rand_pcg::Mcg128Xsl64);

#[verifier::external_type_specification]
#[verifier::external_body]
pub struct ExXorShiftRng(rand_xorshift::XorShiftRng);

/// The algorithm-specific bit-generator state.
enum Engine {
    Standard(rand::rngs::StdRng),
    Pcg(rand_pcg::Mcg128Xsl64),
    XorShift(rand_xorshift::XorShiftRng),
}

impl Engine {
    /// Which algorithm this engine state belongs to.
    spec fn algorithm(self) -> Algorithm {
        match self {
            Engine::Standard(..) => Algorithm::Standard,
            Engine::Pcg(..) => Algorithm::Pcg,
            Engine::XorShift(..) => Algorithm::XorShift,
        }
    }
}

/// The word a deterministic generator answers to a [`Request::Word`] after
/// serving `prior`, as a function of the algorithm and the seed alone.
pub uninterp spec fn word_value(alg: Algorithm, seed: u64, prior: Seq<Request>) -> u64;

/// The word a deterministic generator answers to a [`Request::Span`] for
/// `[lo, hi)` after serving `prior`, as a function of the algorithm and the
/// seed alone.
pub uninterp spec fn span_value(alg: Algorithm, seed: u64, prior: Seq<Request>, lo: u64, hi: u64) -> u64;

/// The word a deterministic generator answers to a
/// [`Request::SpanInclusive`] for `[lo, hi]` after serving `prior`, as a
/// function of the algorithm and the seed alone.
pub uninterp spec fn span_inclusive_value(
    alg: Algorithm,
    seed: u64,
    prior: Seq<Request>,
    lo: u64,
    hi: u64,
) -> u64;

/// The word a deterministic generator answers to `req` after serving
/// `prior`.
pub open spec fn response(alg: Algorithm, seed: u64, prior: Seq<Request>, req: Request) -> u64 {
    match req {
        Request::Word => word_value(alg, seed, prior),
        Request::Span { lo, hi } => span_value(alg, seed, prior, lo, hi),
        Request::SpanInclusive { lo, hi } => span_inclusive_value(alg, seed, prior, lo, hi),
    }
}

/// The whole word sequence a deterministic generator answers to a request
/// sequence, one word per request, each depending on the requests before it.
pub open spec fn replay(alg: Algorithm, seed: u64, reqs: Seq<Request>) -> Seq<u64>
    decreases reqs.len(),
{
    if reqs.len() == 0 {
        Seq::empty()
    } else {
        replay(alg, seed, reqs.drop_last()).push(
            response(alg, seed, reqs.drop_last(), reqs.last()),
        )
    }
}

/// Generator state: the opaque engine together with the observable
/// attributes the contracts speak about.
pub struct GeneratorCore {
    engine: Engine,
    origin: Ghost<Origin>,
    history: Ghost<Seq<Request>>,
}

/// Relies on `rand::SeedableRng::seed_from_u64` for `StdRng`,
/// `Pcg64Mcg` and `XorShiftRng`: the engine state is a pure function of the
/// given seed, so the stream the engine will answer is reproducible.
#[verifier::external_body]
fn engine_seeded(alg: Algorithm, seed: u64) -> (e: Engine)
    ensures
        e.algorithm() == alg,
{
    match alg {
        Algorithm::Standard => Engine::Standard(rand::rngs::StdRng::seed_from_u64(seed)),
        Algorithm::Pcg => Engine::Pcg(rand_pcg::Mcg128Xsl64::seed_from_u64(seed)),
        Algorithm::XorShift => Engine::XorShift(rand_xorshift::XorShiftRng::seed_from_u64(seed)),
    }
}

/// Relies on `rand::SeedableRng::from_os_rng` for `StdRng`, `Pcg64Mcg` and
/// `XorShiftRng`: a fresh engine seeded from operating-system entropy.
/// If the entropy source is unavailable the call panics, which is the
/// intended fatal startup failure; nothing is promised of the state.
#[verifier::external_body]
fn engine_entropy(alg: Algorithm) -> (e: Engine)
    ensures
        e.algorithm() == alg,
{
    match alg {
        Algorithm::Standard => Engine::Standard(rand::rngs::StdRng::from_os_rng()),
        Algorithm::Pcg => Engine::Pcg(rand_pcg::Mcg128Xsl64::from_os_rng()),
        Algorithm::XorShift => Engine::XorShift(rand_xorshift::XorShiftRng::from_os_rng()),
    }
}

/// Relies on `rand::RngCore::next_u64` for `StdRng`, `Pcg64Mcg` and
/// `XorShiftRng`: each call advances the engine state deterministically, so
/// for a seeded engine the word returned is the function [`word_value`] of
/// the algorithm, the seed and the requests already served; of an
/// entropy-seeded engine nothing is promised of the value.
#[verifier::external_body]
fn engine_word(g: &mut GeneratorCore) -> (r: u64)
    ensures
        final(g).engine.algorithm() == old(g).engine.algorithm(),
        final(g).origin@ == old(g).origin@,
        final(g).history@ == old(g).history@.push(Request::Word),
        old(g).origin@ matches Origin::Seeded { seed } ==> r == word_value(
            old(g).engine.algorithm(),
            seed,
            old(g).history@,
        ),
{
    match &mut g.engine {
        Engine::Standard(rng) => rng.next_u64(),
        Engine::Pcg(rng) => rng.next_u64(),
        Engine::XorShift(rng) => rng.next_u64(),
    }
}

/// Relies on `rand::Rng::random_range` over `lo..hi` for `StdRng`,
/// `Pcg64Mcg` and `XorShiftRng`: the value returned lies in `[lo, hi)`; the
/// call panics on an empty range, so `lo < hi` is required; for a seeded
/// engine the value is the function [`span_value`] of the algorithm, the
/// seed and the requests already served.
#[verifier::external_body]
fn engine_span(g: &mut GeneratorCore, lo: u64, hi: u64) -> (r: u64)
    requires
        lo < hi,
    ensures
        lo <= r < hi,
        final(g).engine.algorithm() == old(g).engine.algorithm(),
        final(g).origin@ == old(g).origin@,
        final(g).history@ == old(g).history@.push(Request::Span { lo, hi }),
        old(g).origin@ matches Origin::Seeded { seed } ==> r == span_value(
            old(g).engine.algorithm(),
            seed,
            old(g).history@,
            lo,
            hi,
        ),
{
    match &mut g.engine {
        Engine::Standard(rng) => rng.random_range(lo..hi),
        Engine::Pcg(rng) => rng.random_range(lo..hi),
        Engine::XorShift(rng) => rng.random_range(lo..hi),
    }
}

/// Relies on `rand::Rng::random_range` over `lo..=hi` for `StdRng`,
/// `Pcg64Mcg` and `XorShiftRng`: the value returned lies in `[lo, hi]`; the
/// call panics on an empty range, so `lo <= hi` is required; for a seeded
/// engine the value is the function [`span_inclusive_value`] of the
/// algorithm, the seed and the requests already served.
#[verifier::external_body]
fn engine_span_inclusive(g: &mut GeneratorCore, lo: u64, hi: u64) -> (r: u64)
    requires
        lo <= hi,
    ensures
        lo <= r <= hi,
        final(g).engine.algorithm() == old(g).engine.algorithm(),
        final(g).origin@ == old(g).origin@,
        final(g).history@ == old(g).history@.push(Request::SpanInclusive { lo, hi }),
        old(g).origin@ matches Origin::Seeded { seed } ==> r == span_inclusive_value(
            old(g).engine.algorithm(),
            seed,
            old(g).history@,
            lo,
            hi,
        ),
{
    match &mut g.engine {
        Engine::Standard(rng) => rng.random_range(lo..=hi),
        Engine::Pcg(rng) => rng.random_range(lo..=hi),
        Engine::XorShift(rng) => rng.random_range(lo..=hi),
    }
}

impl GeneratorCore {
    /// Which algorithm this generator runs.
    pub closed spec fn algorithm(self) -> Algorithm {
        self.engine.algorithm()
    }

    /// How this generator was initialized.
    pub closed spec fn origin(self) -> Origin {
        self.origin@
    }

    /// Whether this generator replays a reproducible stream.
    pub open spec fn is_seeded(self) -> bool {
        self.origin() is Seeded
    }

    /// The seed of a deterministic generator.
    pub open spec fn seed(self) -> u64 {
        self.origin()->seed
    }

    /// The requests this generator has served so far, oldest first.
    pub closed spec fn served(self) -> Seq<Request> {
        self.history@
    }

    /// A generator seeded deterministically: its stream is a pure function
    /// of `algorithm` and `seed`.
    pub fn seeded(algorithm: Algorithm, seed: u64) -> (g: Self)
        ensures
            g.algorithm() == algorithm,
            g.origin() == (Origin::Seeded { seed }),
            g.served() == Seq::<Request>::empty(),
    {
        GeneratorCore {
            engine: engine_seeded(algorithm, seed),
            origin: Ghost(Origin::Seeded { seed }),
            history: Ghost(Seq::empty()),
        }
    }

    /// A generator seeded from operating-system entropy: not reproducible.
    pub fn entropy(algorithm: Algorithm) -> (g: Self)
        ensures
            g.algorithm() == algorithm,
            g.origin() == Origin::Entropy,
            g.served() == Seq::<Request>::empty(),
    {
        GeneratorCore {
            engine: engine_entropy(algorithm),
            origin: Ghost(Origin::Entropy),
            history: Ghost(Seq::empty()),
        }
    }

    /// Draw one full-width 64-bit word.
    pub fn word(&mut self) -> (r: u64)
        ensures
            final(self).algorithm() == old(self).algorithm(),
            final(self).origin() == old(self).origin(),
            final(self).served() == old(self).served().push(Request::Word),
            old(self).is_seeded() ==> r == word_value(
                old(self).algorithm(),
                old(self).seed(),
                old(self).served(),
            ),
    {
        engine_word(self)
    }

    /// Draw one word uniformly from the half-open span `[lo, hi)`.
    pub fn span(&mut self, lo: u64, hi: u64) -> (r: u64)
        requires
            lo < hi,
        ensures
            lo <= r < hi,
            final(self).algorithm() == old(self).algorithm(),
            final(self).origin() == old(self).origin(),
            final(self).served() == old(self).served().push(Request::Span { lo, hi }),
            old(self).is_seeded() ==> r == span_value(
                old(self).algorithm(),
                old(self).seed(),
                old(self).served(),
                lo,
                hi,
            ),
    {
        engine_span(self, lo, hi)
    }

    /// Draw one word uniformly from the closed span `[lo, hi]`.
    pub fn span_inclusive(&mut self, lo: u64, hi: u64) -> (r: u64)
        requires
            lo <= hi,
        ensures
            lo <= r <= hi,
            final(self).algorithm() == old(self).algorithm(),
            final(self).origin() == old(self).origin(),
            final(self).served() == old(self).served().push(Request::SpanInclusive { lo, hi }),
            old(self).is_seeded() ==> r == span_inclusive_value(
                old(self).algorithm(),
                old(self).seed(),
                old(self).served(),
                lo,
                hi,
            ),
    {
        engine_span_inclusive(self, lo, hi)
    }
}

} // verus!
