//! Sampleable types: the numeric types a generator can draw uniformly, each
//! with the spec-level description of the value it draws.
//!
//! Every sampling method of a generator is generic over [`Sample`]. An
//! implementation reduces its type to the core's 64-bit primitives: unsigned
//! types embed directly into the word axis, signed types are shifted onto it
//! by an order-preserving bias of half their domain.

use vstd::prelude::*;

use crate::Algorithm;
use crate::generator::GeneratorCore;
use crate::generator::Request;
use crate::generator::span_inclusive_value;
use crate::generator::span_value;
use crate::generator::word_value;

verus! {

/// A type a generator can draw uniformly: either over its whole domain
/// (`sample_next`) or from a caller-given span (`sample_span`,
/// `sample_span_inclusive`).
///
/// The spec functions name, for a deterministic generator, the exact value
/// each draw returns, as a function of the algorithm, the seed and the
/// requests already served; the request functions name the history entry the
/// draw leaves behind.
pub trait Sample: Sized + Copy {
    /// The value as a mathematical integer.
    spec fn to_int(self) -> int;

    /// The smallest value of the type.
    spec fn min_int() -> int;

    /// The largest value of the type.
    spec fn max_int() -> int;

    /// The history entry a whole-domain draw leaves.
    spec fn next_request() -> Request;

    /// The value a whole-domain draw returns on a deterministic generator.
    spec fn next_value_of(alg: Algorithm, seed: u64, prior: Seq<Request>) -> int;

    /// The history entry a draw from `[lo, hi)` leaves.
    spec fn span_request(lo: Self, hi: Self) -> Request;

    /// The value a draw from `[lo, hi)` returns on a deterministic
    /// generator.
    spec fn span_value_of(alg: Algorithm, seed: u64, prior: Seq<Request>, lo: Self, hi: Self) -> int;

    /// The history entry a draw from `[lo, hi]` leaves.
    spec fn span_inclusive_request(lo: Self, hi: Self) -> Request;

    /// The value a draw from `[lo, hi]` returns on a deterministic
    /// generator.
    spec fn span_inclusive_value_of(
        alg: Algorithm,
        seed: u64,
        prior: Seq<Request>,
        lo: Self,
        hi: Self,
    ) -> int;

    /// Draw a value uniformly over the whole domain of the type.
    fn sample_next(g: &mut GeneratorCore) -> (r: Self)
        ensures
            final(g).algorithm() == old(g).algorithm(),
            final(g).origin() == old(g).origin(),
            final(g).served() == old(g).served().push(Self::next_request()),
            Self::min_int() <= r.to_int() <= Self::max_int(),
            old(g).is_seeded() ==> r.to_int() == Self::next_value_of(
                old(g).algorithm(),
                old(g).seed(),
                old(g).served(),
            ),
    ;

    /// Draw a value uniformly from the half-open span `[lo, hi)`.
    fn sample_span(g: &mut GeneratorCore, lo: Self, hi: Self) -> (r: Self)
        requires
            lo.to_int() < hi.to_int(),
        ensures
            lo.to_int() <= r.to_int() < hi.to_int(),
            final(g).algorithm() == old(g).algorithm(),
            final(g).origin() == old(g).origin(),
            final(g).served() == old(g).served().push(Self::span_request(lo, hi)),
            old(g).is_seeded() ==> r.to_int() == Self::span_value_of(
                old(g).algorithm(),
                old(g).seed(),
                old(g).served(),
                lo,
                hi,
            ),
    ;

    /// Draw a value uniformly from the closed span `[lo, hi]`.
    fn sample_span_inclusive(g: &mut GeneratorCore, lo: Self, hi: Self) -> (r: Self)
        requires
            lo.to_int() <= hi.to_int(),
        ensures
            lo.to_int() <= r.to_int() <= hi.to_int(),
            final(g).algorithm() == old(g).algorithm(),
            final(g).origin() == old(g).origin(),
            final(g).served() == old(g).served().push(Self::span_inclusive_request(lo, hi)),
            old(g).is_seeded() ==> r.to_int() == Self::span_inclusive_value_of(
                old(g).algorithm(),
                old(g).seed(),
                old(g).served(),
                lo,
                hi,
            ),
    ;
}

/// The order-preserving shift of a signed 64-bit value onto the unsigned
/// word axis: `x + 2^63`.
pub open spec fn biased_of_i64(x: i64) -> u64 {
    (x + 0x8000_0000_0000_0000) as u64
}

/// The order-preserving shift of a signed 32-bit value onto the unsigned
/// word axis: `x + 2^31`.
pub open spec fn biased_of_i32(x: i32) -> u64 {
    (x + 0x8000_0000) as u64
}

fn i64_to_biased(x: i64) -> (r: u64)
    ensures
        r == biased_of_i64(x),
        r as int == x as int + 0x8000_0000_0000_0000,
{
    if x >= 0 {
        (x as u64) + 0x8000_0000_0000_0000u64
    } else {
        (x - i64::MIN) as u64
    }
}

fn i64_from_biased(u: u64) -> (r: i64)
    ensures
        r as int == u as int - 0x8000_0000_0000_0000,
{
    if u >= 0x8000_0000_0000_0000u64 {
        (u - 0x8000_0000_0000_0000u64) as i64
    } else {
        (u as i64) + i64::MIN
    }
}

/// The order-preserving shift of a signed 16-bit value onto the unsigned
/// word axis: `x + 2^15`.
pub open spec fn biased_of_i16(x: i16) -> u64 {
    (x + 0x8000) as u64
}

/// The order-preserving shift of a signed 8-bit value onto the unsigned
/// word axis: `x + 2^7`.
pub open spec fn biased_of_i8(x: i8) -> u64 {
    (x + 0x80) as u64
}

fn i16_to_biased(x: i16) -> (r: u64)
    ensures
        r == biased_of_i16(x),
        r as int == x as int + 0x8000,
{
    ((x as i64) + 0x8000i64) as u64
}

fn i16_from_biased(u: u64) -> (r: i16)
    requires
        u < 0x1_0000,
    ensures
        r as int == u as int - 0x8000,
{
    ((u as i64) - 0x8000i64) as i16
}

fn i8_to_biased(x: i8) -> (r: u64)
    ensures
        r == biased_of_i8(x),
        r as int == x as int + 0x80,
{
    ((x as i64) + 0x80i64) as u64
}

fn i8_from_biased(u: u64) -> (r: i8)
    requires
        u < 0x100,
    ensures
        r as int == u as int - 0x80,
{
    ((u as i64) - 0x80i64) as i8
}

fn i32_to_biased(x: i32) -> (r: u64)
    ensures
        r == biased_of_i32(x),
        r as int == x as int + 0x8000_0000,
{
    ((x as i64) + 0x8000_0000i64) as u64
}

fn i32_from_biased(u: u64) -> (r: i32)
    requires
        u < 0x1_0000_0000,
    ensures
        r as int == u as int - 0x8000_0000,
{
    ((u as i64) - 0x8000_0000i64) as i32
}

impl Sample for u64 {
    open spec fn to_int(self) -> int {
        self as int
    }

    open spec fn min_int() -> int {
        0
    }

    open spec fn max_int() -> int {
        u64::MAX as int
    }

    open spec fn next_request() -> Request {
        Request::Word
    }

    open spec fn next_value_of(alg: Algorithm, seed: u64, prior: Seq<Request>) -> int {
        word_value(alg, seed, prior) as int
    }

    open spec fn span_request(lo: u64, hi: u64) -> Request {
        Request::Span { lo, hi }
    }

    open spec fn span_value_of(alg: Algorithm, seed: u64, prior: Seq<Request>, lo: u64, hi: u64) -> int {
        span_value(alg, seed, prior, lo, hi) as int
    }

    open spec fn span_inclusive_request(lo: u64, hi: u64) -> Request {
        Request::SpanInclusive { lo, hi }
    }

    open spec fn span_inclusive_value_of(
        alg: Algorithm,
        seed: u64,
        prior: Seq<Request>,
        lo: u64,
        hi: u64,
    ) -> int {
        span_inclusive_value(alg, seed, prior, lo, hi) as int
    }

    fn sample_next(g: &mut GeneratorCore) -> (r: u64) {
        g.word()
    }

    fn sample_span(g: &mut GeneratorCore, lo: u64, hi: u64) -> (r: u64) {
        g.span(lo, hi)
    }

    fn sample_span_inclusive(g: &mut GeneratorCore, lo: u64, hi: u64) -> (r: u64) {
        g.span_inclusive(lo, hi)
    }
}

impl Sample for u32 {
    open spec fn to_int(self) -> int {
        self as int
    }

    open spec fn min_int() -> int {
        0
    }

    open spec fn max_int() -> int {
        u32::MAX as int
    }

    open spec fn next_request() -> Request {
        Request::Word
    }

    open spec fn next_value_of(alg: Algorithm, seed: u64, prior: Seq<Request>) -> int {
        word_value(alg, seed, prior) as int % 0x1_0000_0000
    }

    open spec fn span_request(lo: u32, hi: u32) -> Request {
        Request::Span { lo: lo as u64, hi: hi as u64 }
    }

    open spec fn span_value_of(alg: Algorithm, seed: u64, prior: Seq<Request>, lo: u32, hi: u32) -> int {
        span_value(alg, seed, prior, lo as u64, hi as u64) as int
    }

    open spec fn span_inclusive_request(lo: u32, hi: u32) -> Request {
        Request::SpanInclusive { lo: lo as u64, hi: hi as u64 }
    }

    open spec fn span_inclusive_value_of(
        alg: Algorithm,
        seed: u64,
        prior: Seq<Request>,
        lo: u32,
        hi: u32,
    ) -> int {
        span_inclusive_value(alg, seed, prior, lo as u64, hi as u64) as int
    }

    fn sample_next(g: &mut GeneratorCore) -> (r: u32) {
        (g.word() % 0x1_0000_0000u64) as u32
    }

    fn sample_span(g: &mut GeneratorCore, lo: u32, hi: u32) -> (r: u32) {
        g.span(lo as u64, hi as u64) as u32
    }

    fn sample_span_inclusive(g: &mut GeneratorCore, lo: u32, hi: u32) -> (r: u32) {
        g.span_inclusive(lo as u64, hi as u64) as u32
    }
}

impl Sample for u16 {
    open spec fn to_int(self) -> int {
        self as int
    }

    open spec fn min_int() -> int {
        0
    }

    open spec fn max_int() -> int {
        u16::MAX as int
    }

    open spec fn next_request() -> Request {
        Request::Word
    }

    open spec fn next_value_of(alg: Algorithm, seed: u64, prior: Seq<Request>) -> int {
        word_value(alg, seed, prior) as int % 0x1_0000
    }

    open spec fn span_request(lo: u16, hi: u16) -> Request {
        Request::Span { lo: lo as u64, hi: hi as u64 }
    }

    open spec fn span_value_of(alg: Algorithm, seed: u64, prior: Seq<Request>, lo: u16, hi: u16) -> int {
        span_value(alg, seed, prior, lo as u64, hi as u64) as int
    }

    open spec fn span_inclusive_request(lo: u16, hi: u16) -> Request {
        Request::SpanInclusive { lo: lo as u64, hi: hi as u64 }
    }

    open spec fn span_inclusive_value_of(
        alg: Algorithm,
        seed: u64,
        prior: Seq<Request>,
        lo: u16,
        hi: u16,
    ) -> int {
        span_inclusive_value(alg, seed, prior, lo as u64, hi as u64) as int
    }

    fn sample_next(g: &mut GeneratorCore) -> (r: u16) {
        (g.word() % 0x1_0000u64) as u16
    }

    fn sample_span(g: &mut GeneratorCore, lo: u16, hi: u16) -> (r: u16) {
        g.span(lo as u64, hi as u64) as u16
    }

    fn sample_span_inclusive(g: &mut GeneratorCore, lo: u16, hi: u16) -> (r: u16) {
        g.span_inclusive(lo as u64, hi as u64) as u16
    }
}

impl Sample for u8 {
    open spec fn to_int(self) -> int {
        self as int
    }

    open spec fn min_int() -> int {
        0
    }

    open spec fn max_int() -> int {
        u8::MAX as int
    }

    open spec fn next_request() -> Request {
        Request::Word
    }

    open spec fn next_value_of(alg: Algorithm, seed: u64, prior: Seq<Request>) -> int {
        word_value(alg, seed, prior) as int % 0x100
    }

    open spec fn span_request(lo: u8, hi: u8) -> Request {
        Request::Span { lo: lo as u64, hi: hi as u64 }
    }

    open spec fn span_value_of(alg: Algorithm, seed: u64, prior: Seq<Request>, lo: u8, hi: u8) -> int {
        span_value(alg, seed, prior, lo as u64, hi as u64) as int
    }

    open spec fn span_inclusive_request(lo: u8, hi: u8) -> Request {
        Request::SpanInclusive { lo: lo as u64, hi: hi as u64 }
    }

    open spec fn span_inclusive_value_of(
        alg: Algorithm,
        seed: u64,
        prior: Seq<Request>,
        lo: u8,
        hi: u8,
    ) -> int {
        span_inclusive_value(alg, seed, prior, lo as u64, hi as u64) as int
    }

    fn sample_next(g: &mut GeneratorCore) -> (r: u8) {
        (g.word() % 0x100u64) as u8
    }

    fn sample_span(g: &mut GeneratorCore, lo: u8, hi: u8) -> (r: u8) {
        g.span(lo as u64, hi as u64) as u8
    }

    fn sample_span_inclusive(g: &mut GeneratorCore, lo: u8, hi: u8) -> (r: u8) {
        g.span_inclusive(lo as u64, hi as u64) as u8
    }
}

impl Sample for i64 {
    open spec fn to_int(self) -> int {
        self as int
    }

    open spec fn min_int() -> int {
        i64::MIN as int
    }

    open spec fn max_int() -> int {
        i64::MAX as int
    }

    open spec fn next_request() -> Request {
        Request::Word
    }

    open spec fn next_value_of(alg: Algorithm, seed: u64, prior: Seq<Request>) -> int {
        word_value(alg, seed, prior) as int - 0x8000_0000_0000_0000
    }

    open spec fn span_request(lo: i64, hi: i64) -> Request {
        Request::Span { lo: biased_of_i64(lo), hi: biased_of_i64(hi) }
    }

    open spec fn span_value_of(alg: Algorithm, seed: u64, prior: Seq<Request>, lo: i64, hi: i64) -> int {
        span_value(alg, seed, prior, biased_of_i64(lo), biased_of_i64(hi)) as int
            - 0x8000_0000_0000_0000
    }

    open spec fn span_inclusive_request(lo: i64, hi: i64) -> Request {
        Request::SpanInclusive { lo: biased_of_i64(lo), hi: biased_of_i64(hi) }
    }

    open spec fn span_inclusive_value_of(
        alg: Algorithm,
        seed: u64,
        prior: Seq<Request>,
        lo: i64,
        hi: i64,
    ) -> int {
        span_inclusive_value(alg, seed, prior, biased_of_i64(lo), biased_of_i64(hi)) as int
            - 0x8000_0000_0000_0000
    }

    fn sample_next(g: &mut GeneratorCore) -> (r: i64) {
        let w = g.word();
        i64_from_biased(w)
    }

    fn sample_span(g: &mut GeneratorCore, lo: i64, hi: i64) -> (r: i64) {
        let blo = i64_to_biased(lo);
        let bhi = i64_to_biased(hi);
        let b = g.span(blo, bhi);
        i64_from_biased(b)
    }

    fn sample_span_inclusive(g: &mut GeneratorCore, lo: i64, hi: i64) -> (r: i64) {
        let blo = i64_to_biased(lo);
        let bhi = i64_to_biased(hi);
        let b = g.span_inclusive(blo, bhi);
        i64_from_biased(b)
    }
}

impl Sample for i32 {
    open spec fn to_int(self) -> int {
        self as int
    }

    open spec fn min_int() -> int {
        i32::MIN as int
    }

    open spec fn max_int() -> int {
        i32::MAX as int
    }

    open spec fn next_request() -> Request {
        Request::Word
    }

    open spec fn next_value_of(alg: Algorithm, seed: u64, prior: Seq<Request>) -> int {
        word_value(alg, seed, prior) as int % 0x1_0000_0000 - 0x8000_0000
    }

    open spec fn span_request(lo: i32, hi: i32) -> Request {
        Request::Span { lo: biased_of_i32(lo), hi: biased_of_i32(hi) }
    }

    open spec fn span_value_of(alg: Algorithm, seed: u64, prior: Seq<Request>, lo: i32, hi: i32) -> int {
        span_value(alg, seed, prior, biased_of_i32(lo), biased_of_i32(hi)) as int - 0x8000_0000
    }

    open spec fn span_inclusive_request(lo: i32, hi: i32) -> Request {
        Request::SpanInclusive { lo: biased_of_i32(lo), hi: biased_of_i32(hi) }
    }

    open spec fn span_inclusive_value_of(
        alg: Algorithm,
        seed: u64,
        prior: Seq<Request>,
        lo: i32,
        hi: i32,
    ) -> int {
        span_inclusive_value(alg, seed, prior, biased_of_i32(lo), biased_of_i32(hi)) as int
            - 0x8000_0000
    }

    fn sample_next(g: &mut GeneratorCore) -> (r: i32) {
        let w = g.word();
        i32_from_biased(w % 0x1_0000_0000u64)
    }

    fn sample_span(g: &mut GeneratorCore, lo: i32, hi: i32) -> (r: i32) {
        let blo = i32_to_biased(lo);
        let bhi = i32_to_biased(hi);
        let b = g.span(blo, bhi);
        i32_from_biased(b)
    }

    fn sample_span_inclusive(g: &mut GeneratorCore, lo: i32, hi: i32) -> (r: i32) {
        let blo = i32_to_biased(lo);
        let bhi = i32_to_biased(hi);
        let b = g.span_inclusive(blo, bhi);
        i32_from_biased(b)
    }
}

impl Sample for i16 {
    open spec fn to_int(self) -> int {
        self as int
    }

    open spec fn min_int() -> int {
        i16::MIN as int
    }

    open spec fn max_int() -> int {
        i16::MAX as int
    }

    open spec fn next_request() -> Request {
        Request::Word
    }

    open spec fn next_value_of(alg: Algorithm, seed: u64, prior: Seq<Request>) -> int {
        word_value(alg, seed, prior) as int % 0x1_0000 - 0x8000
    }

    open spec fn span_request(lo: i16, hi: i16) -> Request {
        Request::Span { lo: biased_of_i16(lo), hi: biased_of_i16(hi) }
    }

    open spec fn span_value_of(alg: Algorithm, seed: u64, prior: Seq<Request>, lo: i16, hi: i16) -> int {
        span_value(alg, seed, prior, biased_of_i16(lo), biased_of_i16(hi)) as int - 0x8000
    }

    open spec fn span_inclusive_request(lo: i16, hi: i16) -> Request {
        Request::SpanInclusive { lo: biased_of_i16(lo), hi: biased_of_i16(hi) }
    }

    open spec fn span_inclusive_value_of(
        alg: Algorithm,
        seed: u64,
        prior: Seq<Request>,
        lo: i16,
        hi: i16,
    ) -> int {
        span_inclusive_value(alg, seed, prior, biased_of_i16(lo), biased_of_i16(hi)) as int
            - 0x8000
    }

    fn sample_next(g: &mut GeneratorCore) -> (r: i16) {
        let w = g.word();
        i16_from_biased(w % 0x1_0000u64)
    }

    fn sample_span(g: &mut GeneratorCore, lo: i16, hi: i16) -> (r: i16) {
        let blo = i16_to_biased(lo);
        let bhi = i16_to_biased(hi);
        let b = g.span(blo, bhi);
        i16_from_biased(b)
    }

    fn sample_span_inclusive(g: &mut GeneratorCore, lo: i16, hi: i16) -> (r: i16) {
        let blo = i16_to_biased(lo);
        let bhi = i16_to_biased(hi);
        let b = g.span_inclusive(blo, bhi);
        i16_from_biased(b)
    }
}

impl Sample for i8 {
    open spec fn to_int(self) -> int {
        self as int
    }

    open spec fn min_int() -> int {
        i8::MIN as int
    }

    open spec fn max_int() -> int {
        i8::MAX as int
    }

    open spec fn next_request() -> Request {
        Request::Word
    }

    open spec fn next_value_of(alg: Algorithm, seed: u64, prior: Seq<Request>) -> int {
        word_value(alg, seed, prior) as int % 0x100 - 0x80
    }

    open spec fn span_request(lo: i8, hi: i8) -> Request {
        Request::Span { lo: biased_of_i8(lo), hi: biased_of_i8(hi) }
    }

    open spec fn span_value_of(alg: Algorithm, seed: u64, prior: Seq<Request>, lo: i8, hi: i8) -> int {
        span_value(alg, seed, prior, biased_of_i8(lo), biased_of_i8(hi)) as int - 0x80
    }

    open spec fn span_inclusive_request(lo: i8, hi: i8) -> Request {
        Request::SpanInclusive { lo: biased_of_i8(lo), hi: biased_of_i8(hi) }
    }

    open spec fn span_inclusive_value_of(
        alg: Algorithm,
        seed: u64,
        prior: Seq<Request>,
        lo: i8,
        hi: i8,
    ) -> int {
        span_inclusive_value(alg, seed, prior, biased_of_i8(lo), biased_of_i8(hi)) as int - 0x80
    }

    fn sample_next(g: &mut GeneratorCore) -> (r: i8) {
        let w = g.word();
        i8_from_biased(w % 0x100u64)
    }

    fn sample_span(g: &mut GeneratorCore, lo: i8, hi: i8) -> (r: i8) {
        let blo = i8_to_biased(lo);
        let bhi = i8_to_biased(hi);
        let b = g.span(blo, bhi);
        i8_from_biased(b)
    }

    fn sample_span_inclusive(g: &mut GeneratorCore, lo: i8, hi: i8) -> (r: i8) {
        let blo = i8_to_biased(lo);
        let bhi = i8_to_biased(hi);
        let b = g.span_inclusive(blo, bhi);
        i8_from_biased(b)
    }
}

impl Sample for usize {
    open spec fn to_int(self) -> int {
        self as int
    }

    open spec fn min_int() -> int {
        0
    }

    open spec fn max_int() -> int {
        usize::MAX as int
    }

    open spec fn next_request() -> Request {
        Request::Word
    }

    open spec fn next_value_of(alg: Algorithm, seed: u64, prior: Seq<Request>) -> int {
        word_value(alg, seed, prior) as int % (usize::MAX as int + 1)
    }

    open spec fn span_request(lo: usize, hi: usize) -> Request {
        Request::Span { lo: lo as u64, hi: hi as u64 }
    }

    open spec fn span_value_of(alg: Algorithm, seed: u64, prior: Seq<Request>, lo: usize, hi: usize) -> int {
        span_value(alg, seed, prior, lo as u64, hi as u64) as int
    }

    open spec fn span_inclusive_request(lo: usize, hi: usize) -> Request {
        Request::SpanInclusive { lo: lo as u64, hi: hi as u64 }
    }

    open spec fn span_inclusive_value_of(
        alg: Algorithm,
        seed: u64,
        prior: Seq<Request>,
        lo: usize,
        hi: usize,
    ) -> int {
        span_inclusive_value(alg, seed, prior, lo as u64, hi as u64) as int
    }

    fn sample_next(g: &mut GeneratorCore) -> (r: usize) {
        let w = g.word();
        if usize::MAX as u64 == u64::MAX {
            w as usize
        } else {
            (w % ((usize::MAX as u64) + 1)) as usize
        }
    }

    fn sample_span(g: &mut GeneratorCore, lo: usize, hi: usize) -> (r: usize) {
        g.span(lo as u64, hi as u64) as usize
    }

    fn sample_span_inclusive(g: &mut GeneratorCore, lo: usize, hi: usize) -> (r: usize) {
        g.span_inclusive(lo as u64, hi as u64) as usize
    }
}

} // verus!
