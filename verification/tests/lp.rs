use amm_migration::lp::lp_burn_amount;

#[test]
fn burn_amount_of_a_square_product() {
    // sqrt(10^6 * 10^6) = 10^6; all of it but the locked remainder burns
    assert_eq!(lp_burn_amount(1_000_000, 1_000_000), Some(999_900));
}

#[test]
fn burn_amount_rounds_the_root_down() {
    // sqrt(999 * 1000) = floor(999.49..) = 999
    assert_eq!(lp_burn_amount(999, 1000), Some(899));
}

#[test]
fn burn_amount_at_the_lock_boundary() {
    // sqrt(100 * 100) = 100: nothing is left to burn
    assert_eq!(lp_burn_amount(100, 100), Some(0));
    // sqrt(99 * 99) = 99: fewer tokens than stay locked
    assert_eq!(lp_burn_amount(99, 99), None);
    assert_eq!(lp_burn_amount(0, 1_000_000), None);
}

#[test]
fn burn_amount_of_the_largest_deposits() {
    // sqrt(u64::MAX * u64::MAX) = u64::MAX
    assert_eq!(lp_burn_amount(u64::MAX, u64::MAX), Some(u64::MAX - 100));
}
