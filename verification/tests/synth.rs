//! The PRNG, the seed hash and the synthetic-history generator.

use worth_core::synth::{
    account_seed, category_profile, draw_in_range, generate, seed_hash, SeededRng, BAL_LIMIT,
};
use worth_core::types::AccountTypeName;

#[test]
fn seed_hash_matches_fnv1a_reference_values() {
    assert_eq!(seed_hash(&b"1".to_vec()), 873_244_444);
    assert_eq!(seed_hash(&b"42".to_vec()), 2_279_835_011);
    assert_eq!(seed_hash(&b"-5".to_vec()), 416_092_279);
    assert_eq!(seed_hash(&b"".to_vec()), 2_166_136_261);
}

#[test]
fn account_seed_hashes_the_decimal_rendering() {
    assert_eq!(account_seed(1), 873_244_444);
    assert_eq!(account_seed(42), 2_279_835_011);
    assert_eq!(account_seed(-5), 416_092_279);
    assert_ne!(account_seed(5), account_seed(-5));
    assert_eq!(account_seed(7), account_seed(7));
}

#[test]
fn prng_sequence_is_reproducible() {
    let mut a = SeededRng::new(1);
    assert_eq!(a.next_u32(), 270_369);
    assert_eq!(a.next_u32(), 67_634_689);
    let mut b = SeededRng::new(1);
    assert_eq!(b.next_u32(), 270_369);
    assert_eq!(b.next_u32(), 67_634_689);
}

#[test]
fn prng_zero_seed_still_produces_draws() {
    let mut r = SeededRng::new(0);
    let first = r.next_u32();
    let second = r.next_u32();
    assert_ne!(first, 0);
    assert_ne!(first, second);
}

#[test]
fn range_draw_stays_inside_the_range_and_degenerate_range_is_free() {
    let mut r = SeededRng::new(99);
    for _ in 0..200 {
        let v = draw_in_range(&mut r, 10, 20);
        assert!((10..=20).contains(&v));
    }
    let state_before = r.state;
    assert_eq!(draw_in_range(&mut r, 5, 5), 5);
    assert_eq!(draw_in_range(&mut r, 9, 3), 9);
    assert_eq!(r.state, state_before);
}

#[test]
fn generator_is_deterministic() {
    let a = generate(42, AccountTypeName::Investment, 1_234_567, 1, 20_000);
    let b = generate(42, AccountTypeName::Investment, 1_234_567, 1, 20_000);
    assert_eq!(a.0, b.0);
    assert_eq!(a.1, b.1);
}

#[test]
fn generator_differs_between_accounts() {
    let a = generate(1, AccountTypeName::Current, 50_000, 1, 20_000);
    let b = generate(2, AccountTypeName::Current, 50_000, 1, 20_000);
    assert_ne!(a.1, b.1);
}

#[test]
fn generator_anchors_the_last_value_at_the_target() {
    let (_, series) = generate(7, AccountTypeName::Savings, 99_999, 1, 20_000);
    assert_eq!(*series.last().unwrap(), 99_999);
    let (_, series) = generate(7, AccountTypeName::Loan, -750_000, -1, 20_000);
    assert_eq!(*series.last().unwrap(), -750_000);
}

#[test]
fn generator_length_comes_from_the_category_range() {
    for cat in [
        AccountTypeName::Current,
        AccountTypeName::Savings,
        AccountTypeName::CreditCard,
        AccountTypeName::Isa,
        AccountTypeName::Investment,
        AccountTypeName::Pension,
        AccountTypeName::Cash,
        AccountTypeName::Loan,
    ] {
        let p = category_profile(cat);
        let (start, series) = generate(11, cat, 10_000, 1, 20_000);
        assert!(series.len() >= p.min_days as usize);
        assert!(series.len() <= p.max_days as usize);
        assert_eq!(start, 20_000 - series.len() as i64 + 1);
    }
}

#[test]
fn positive_sign_histories_never_go_negative() {
    let (_, series) = generate(3, AccountTypeName::Current, 120, 1, 20_000);
    for v in &series {
        assert!(*v >= 0);
        assert!(*v <= BAL_LIMIT);
    }
}

#[test]
fn negative_sign_histories_never_go_positive() {
    let (_, series) = generate(3, AccountTypeName::CreditCard, -55_000, -1, 20_000);
    for v in &series {
        assert!(*v <= 0);
        assert!(*v >= -BAL_LIMIT);
    }
}

#[test]
fn generator_output_actually_varies() {
    let (_, series) = generate(21, AccountTypeName::Investment, 5_000_000, 1, 20_000);
    assert!(series.iter().any(|v| *v != series[series.len() - 1]));
}
