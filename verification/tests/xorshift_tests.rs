use sample_plan::xorshift::SparkXorShiftRandom;

fn next_double(rng: &mut SparkXorShiftRandom) -> f64 {
    (rng.next_double_bits() as f64) / ((1u64 << 53) as f64)
}

const EXPECTED_SEED_1: [f64; 5] = [
    0.6363787615254752,
    0.5993846534021868,
    0.134842710012538,
    0.07684163905460906,
    0.8539211111755448,
];

const EXPECTED_SEED_24: [f64; 5] = [
    0.3943255396952755,
    0.48619924381941027,
    0.2923951640552428,
    0.33335316633280176,
    0.3981939745854918,
];

#[test]
fn doubles_for_seed_1_match_reference() {
    let mut rng = SparkXorShiftRandom::new(1);
    for &expected in EXPECTED_SEED_1.iter() {
        let got = next_double(&mut rng);
        assert!((got - expected).abs() < 1e-15, "got {got}, expected {expected}");
    }
}

#[test]
fn doubles_for_seed_24_match_reference() {
    let mut rng = SparkXorShiftRandom::new(24);
    for &expected in EXPECTED_SEED_24.iter() {
        let got = next_double(&mut rng);
        assert!((got - expected).abs() < 1e-15, "got {got}, expected {expected}");
    }
}

#[test]
fn generator_is_deterministic() {
    let mut a = SparkXorShiftRandom::new(-987654321);
    let mut b = SparkXorShiftRandom::new(-987654321);
    for _ in 0..100 {
        assert_eq!(a.next_double_bits(), b.next_double_bits());
    }
}

#[test]
fn mix_of_zeros_is_combine_constant() {
    // k = 0 stays 0 through both multiplications and the rotation, so the
    // combine step reduces to rotl(h ^ 0) * 5 + 0xe6546b64 with h = 0.
    assert_eq!(SparkXorShiftRandom::mix(0, 0), 0xe654_6b64);
}

#[test]
fn fmix32_of_zero_is_zero() {
    assert_eq!(SparkXorShiftRandom::fmix32(0), 0);
}

#[test]
fn hash_of_empty_bytes_under_zero_seed_is_zero() {
    // No blocks, no tail, length 0: the hash is fmix32(0).
    assert_eq!(SparkXorShiftRandom::murmur3_bytes_hash(&[], 0), 0);
}

#[test]
fn hash_depends_on_length_only_through_final_xor() {
    // One tail byte 0: k1 stays 0 after the multiplications, so only the
    // length xor distinguishes this from the empty input.
    let h = SparkXorShiftRandom::murmur3_bytes_hash(&[0], 0);
    assert_eq!(h, SparkXorShiftRandom::fmix32(1));
}

#[test]
fn hash_seed_equals_two_pass_construction() {
    let seed: i64 = 42;
    let bytes = seed.to_be_bytes();
    let low = SparkXorShiftRandom::murmur3_bytes_hash(&bytes, 0x3c07_4a61);
    let high = SparkXorShiftRandom::murmur3_bytes_hash(&bytes, low);
    let expected = ((high as i64) << 32) | ((low as i64) & 0xffff_ffff);
    assert_eq!(SparkXorShiftRandom::hash_seed(seed), expected);
}

#[test]
fn next_returns_only_low_bits() {
    let mut rng = SparkXorShiftRandom::new(7);
    for _ in 0..50 {
        let v = rng.next(26);
        assert!(0 <= v && v < (1 << 26));
    }
    for _ in 0..50 {
        let v = rng.next(1);
        assert!(v == 0 || v == 1);
    }
    for _ in 0..50 {
        let v = rng.next(0);
        assert_eq!(v, 0);
    }
}

#[test]
fn doubles_lie_in_unit_interval() {
    let mut rng = SparkXorShiftRandom::new(-1);
    for _ in 0..1000 {
        let d = next_double(&mut rng);
        assert!((0.0..1.0).contains(&d));
    }
}

#[test]
fn bernoulli_fraction_approaches_selection_width() {
    // With bounds [0, 0.3), a row survives exactly when its uniform draw is
    // below 0.3; over many draws the surviving fraction approaches 0.3.
    let mut rng = SparkXorShiftRandom::new(2024);
    let n = 100_000;
    let mut kept = 0u32;
    for _ in 0..n {
        if next_double(&mut rng) < 0.3 {
            kept += 1;
        }
    }
    let fraction = kept as f64 / n as f64;
    assert!(
        (fraction - 0.3).abs() < 0.01,
        "surviving fraction {fraction} not near 0.3"
    );
}
