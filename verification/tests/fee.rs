use amm_migration::fee::seeding_fee;

#[test]
fn one_percent_of_a_billion() {
    assert_eq!(seeding_fee(1_000_000_000, 100), 10_000_000);
}

#[test]
fn fee_rounds_down() {
    // 9999 * 1 / 10000 rounds down to zero
    assert_eq!(seeding_fee(9999, 1), 0);
    assert_eq!(seeding_fee(10001, 1), 1);
}

#[test]
fn zero_rate_takes_nothing() {
    assert_eq!(seeding_fee(123_456_789, 0), 0);
}

#[test]
fn full_rate_takes_everything() {
    assert_eq!(seeding_fee(123_456_789, 10000), 123_456_789);
}

#[test]
fn fee_is_monotonic_on_samples() {
    let reserves = [0u128, 1, 9999, 10_000, 1_000_000_000, u64::MAX as u128];
    let rates = [0u16, 1, 50, 100, 9999, 10000];
    for w in reserves.windows(2) {
        for r in rates.iter() {
            assert!(seeding_fee(w[0], *r) <= seeding_fee(w[1], *r));
        }
    }
    for r in reserves.iter() {
        for w in rates.windows(2) {
            assert!(seeding_fee(*r, w[0]) <= seeding_fee(*r, w[1]));
        }
    }
}

#[test]
fn fee_never_exceeds_reserve() {
    let reserves = [0u128, 1, 9999, 1_000_000_000, u64::MAX as u128];
    let rates = [0u16, 1, 100, 9999, 10000];
    for r in reserves.iter() {
        for b in rates.iter() {
            assert!(seeding_fee(*r, *b) <= *r);
        }
    }
}
