//! Tests of the shared-access generator.

use my_library::Algorithm;
use my_library::random_locking::RandomNumberGenerator;

#[test]
fn random_locking_test_range_bounds() {
    let rng = RandomNumberGenerator::new();
    for _ in 0..1000 {
        let n: i32 = rng.range_inclusive(1, 10);
        assert!(n >= 1);
        assert!(n <= 10);
    }
}

#[test]
fn random_locking_test_reproducibility() {
    let rng = (
        RandomNumberGenerator::seeded(1),
        RandomNumberGenerator::seeded(1),
    );
    (0..1000).for_each(|_| {
        assert_eq!(
            rng.0.range(u32::MIN, u32::MAX),
            rng.1.range(u32::MIN, u32::MAX)
        )
    })
}

#[test]
fn random_locking_test_next_generic() {
    let rng = RandomNumberGenerator::new();
    let n: u8 = rng.next();
    assert!(n <= u8::MAX);
    let m: u16 = rng.next();
    assert!(m <= u16::MAX);
    let k: u32 = rng.next();
    assert!(k <= u32::MAX);
    let w: u64 = rng.next();
    assert!(w <= u64::MAX);
}

#[test]
fn locking_matches_exclusive_for_equal_seeds() {
    let shared = RandomNumberGenerator::seeded(31);
    let mut owned = my_library::random::RandomNumberGenerator::seeded(31);
    for _ in 0..1000 {
        assert_eq!(shared.range(10u64, 1000u64), owned.range(10u64, 1000u64));
    }
}

#[test]
fn locking_bounds_per_algorithm() {
    for alg in [Algorithm::Standard, Algorithm::Pcg, Algorithm::XorShift] {
        let rng = RandomNumberGenerator::new_with(alg);
        for _ in 0..300 {
            let a: i64 = rng.range(-1000, 1000);
            assert!((-1000..1000).contains(&a));
            let b: u8 = rng.range_inclusive(0, 5);
            assert!(b <= 5);
        }
    }
}

#[test]
fn locking_default_behaves_like_new() {
    let rng = RandomNumberGenerator::default();
    for _ in 0..100 {
        let n: u32 = rng.range(0, 3);
        assert!(n < 3);
    }
}

#[test]
fn shared_access_ten_thousand_calls() {
    let rng = RandomNumberGenerator::new();
    let caller_a = &rng;
    let caller_b = &rng;
    for _ in 0..5000 {
        let a: u32 = caller_a.range(1, 7);
        assert!((1..7).contains(&a));
        let b: u32 = caller_b.range_inclusive(1, 6);
        assert!((1..=6).contains(&b));
    }
}
