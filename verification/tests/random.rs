//! Tests of the exclusive-access generator.

use my_library::Algorithm;
use my_library::random::RandomNumberGenerator;

#[test]
fn random_test_range_bounds() {
    let mut rng = RandomNumberGenerator::new();
    for _ in 0..1000 {
        let n: i32 = rng.range_inclusive(1, 10);
        assert!(n >= 1);
        assert!(n <= 10);
    }
}

#[test]
fn random_test_reproducibility() {
    let mut rng = (
        RandomNumberGenerator::seeded(1),
        RandomNumberGenerator::seeded(1),
    );
    (0..1000).for_each(|_| {
        assert_eq!(
            rng.0.range(u32::MIN, u32::MAX),
            rng.1.range(u32::MIN, u32::MAX)
        )
    })
}

#[test]
fn random_test_next_generic() {
    let mut rng = RandomNumberGenerator::new();
    let n: u8 = rng.next();
    assert!(n <= u8::MAX);
    let m: u16 = rng.next();
    assert!(m <= u16::MAX);
    let k: u32 = rng.next();
    assert!(k <= u32::MAX);
    let w: u64 = rng.next();
    assert!(w <= u64::MAX);
}

#[test]
fn reproducibility_over_mixed_calls() {
    let mut a = RandomNumberGenerator::seeded(97);
    let mut b = RandomNumberGenerator::seeded(97);
    for _ in 0..1000 {
        assert_eq!(a.range(1u32, 7u32), b.range(1u32, 7u32));
        assert_eq!(a.range_inclusive(-50i64, 50i64), b.range_inclusive(-50i64, 50i64));
        assert_eq!(a.next::<u8>(), b.next::<u8>());
        assert_eq!(a.next::<i64>(), b.next::<i64>());
    }
}

#[test]
fn reproducibility_per_algorithm() {
    for alg in [Algorithm::Standard, Algorithm::Pcg, Algorithm::XorShift] {
        let mut a = RandomNumberGenerator::seeded_with(alg, 12345);
        let mut b = RandomNumberGenerator::seeded_with(alg, 12345);
        for _ in 0..1000 {
            assert_eq!(a.next::<u64>(), b.next::<u64>());
        }
    }
}

#[test]
fn range_bounds_all_types_and_algorithms() {
    for alg in [Algorithm::Standard, Algorithm::Pcg, Algorithm::XorShift] {
        let mut rng = RandomNumberGenerator::new_with(alg);
        for _ in 0..1000 {
            let a: u8 = rng.range(3, 9);
            assert!((3..9).contains(&a));
            let b: u16 = rng.range_inclusive(0, u16::MAX);
            assert!(b <= u16::MAX);
            let c: i32 = rng.range(-17, 4);
            assert!((-17..4).contains(&c));
            let d: i64 = rng.range_inclusive(i64::MIN, i64::MAX);
            assert!(d >= i64::MIN && d <= i64::MAX);
            let e: u64 = rng.range(0, u64::MAX);
            assert!(e < u64::MAX);
            let f: i32 = rng.range_inclusive(i32::MIN, i32::MAX);
            assert!(f >= i32::MIN && f <= i32::MAX);
        }
    }
}

#[test]
fn one_element_ranges_are_pinned() {
    let mut rng = RandomNumberGenerator::new();
    assert_eq!(rng.range(5u32, 6u32), 5);
    assert_eq!(rng.range_inclusive(7u8, 7u8), 7);
    assert_eq!(rng.range(-3i32, -2i32), -3);
    assert_eq!(rng.range_inclusive(i64::MIN, i64::MIN), i64::MIN);
}

#[test]
fn draws_are_not_constant() {
    let mut rng = RandomNumberGenerator::seeded(2024);
    let mut seen = [false; 100];
    for _ in 0..1000 {
        let v: u32 = rng.range(0, 100);
        seen[v as usize] = true;
    }
    let distinct = seen.iter().filter(|s| **s).count();
    assert!(distinct > 50, "only {distinct} distinct values in 1000 draws");

    let mut words = Vec::new();
    for _ in 0..100 {
        words.push(rng.next::<u64>());
    }
    assert!(words.iter().any(|w| *w != words[0]));
}

#[test]
fn next_unsigned_is_not_visibly_biased() {
    let mut rng = RandomNumberGenerator::seeded(5);
    let mut counts = [0u32; 256];
    for _ in 0..10000 {
        let v: u8 = rng.next();
        counts[v as usize] += 1;
    }
    // Expected about 39 per value; no value should swallow a tenth of all draws.
    assert!(counts.iter().all(|c| *c < 1000));
    assert!(counts.iter().filter(|c| **c > 0).count() > 200);
}

#[test]
fn dice_sums_form_a_triangle() {
    let mut rng = RandomNumberGenerator::seeded(11);
    let mut counts = [0u32; 19];
    for _ in 0..1000 {
        let sum: i32 =
            rng.range_inclusive(1, 6) + rng.range_inclusive(1, 6) + rng.range_inclusive(1, 6);
        assert!((3..=18).contains(&sum));
        counts[sum as usize] += 1;
    }
    let peak = counts[10] + counts[11];
    let tails = counts[3] + counts[18];
    assert!(peak > 4 * tails, "peak {peak} not well above tails {tails}");
    assert!(counts[10] > counts[4]);
    assert!(counts[11] > counts[17]);
    assert!(counts[9] > counts[3]);
    assert!(counts[12] > counts[18]);
}

#[test]
fn default_behaves_like_new() {
    let mut rng = RandomNumberGenerator::default();
    for _ in 0..100 {
        let n: u32 = rng.range_inclusive(2, 4);
        assert!((2..=4).contains(&n));
    }
}

#[test]
fn different_seeds_diverge() {
    let mut a = RandomNumberGenerator::seeded(1);
    let mut b = RandomNumberGenerator::seeded(2);
    let mut diverged = false;
    for _ in 0..100 {
        if a.next::<u64>() != b.next::<u64>() {
            diverged = true;
        }
    }
    assert!(diverged, "seeds 1 and 2 replayed the same stream");
}

#[test]
fn different_algorithms_diverge() {
    let mut std_rng = RandomNumberGenerator::seeded_with(Algorithm::Standard, 9);
    let mut pcg_rng = RandomNumberGenerator::seeded_with(Algorithm::Pcg, 9);
    let mut xor_rng = RandomNumberGenerator::seeded_with(Algorithm::XorShift, 9);
    let mut std_pcg = false;
    let mut std_xor = false;
    let mut pcg_xor = false;
    for _ in 0..100 {
        let s = std_rng.next::<u64>();
        let p = pcg_rng.next::<u64>();
        let x = xor_rng.next::<u64>();
        std_pcg |= s != p;
        std_xor |= s != x;
        pcg_xor |= p != x;
    }
    assert!(std_pcg && std_xor && pcg_xor);
}

#[test]
fn entropy_seeded_instances_differ() {
    let mut a = RandomNumberGenerator::new();
    let mut b = RandomNumberGenerator::new();
    let mut diverged = false;
    for _ in 0..100 {
        if a.next::<u64>() != b.next::<u64>() {
            diverged = true;
        }
    }
    assert!(diverged, "two entropy-seeded generators replayed the same stream");
}

#[test]
fn narrow_and_word_sized_types_sample_in_bounds() {
    let mut rng = RandomNumberGenerator::seeded(404);
    for _ in 0..1000 {
        let a: i8 = rng.range_inclusive(-5, 5);
        assert!((-5..=5).contains(&a));
        let b: i16 = rng.range(-300, 300);
        assert!((-300..300).contains(&b));
        let c: usize = rng.range_inclusive(1, 6);
        assert!((1..=6).contains(&c));
        let d: i8 = rng.next();
        assert!(d >= i8::MIN);
        let e: i16 = rng.next();
        assert!(e >= i16::MIN);
        let f: usize = rng.next();
        assert!(f <= usize::MAX);
    }
}
