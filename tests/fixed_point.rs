use exchange::{buy_implied_volume, matched_volumes, sell_implied_volume, split_fee, MatchedVolumes};

const ONE: u128 = 1_000_000_000_000;

#[test]
fn buy_implied_multiplies_before_dividing() {
    assert_eq!(buy_implied_volume(100, 2 * ONE), Some(200));
    assert_eq!(buy_implied_volume(3, ONE / 2), Some(1));
    assert_eq!(buy_implied_volume(u128::MAX, 2), None);
}

#[test]
fn sell_implied_divides_before_multiplying() {
    assert_eq!(sell_implied_volume(40, ONE), Some(25_000_000_000 * ONE));
    assert_eq!(sell_implied_volume(3, 2), Some(0));
    assert_eq!(sell_implied_volume(0, ONE), None);
    assert_eq!(sell_implied_volume(1, u128::MAX), None);
}

#[test]
fn sell_absorbed_when_below_buy_implied() {
    let m = matched_volumes(5 * ONE, ONE, ONE, ONE);
    assert_eq!(m, Some(MatchedVolumes { base_volume: ONE, target_volume: ONE }));
}

#[test]
fn buy_absorbed_when_sell_covers_it() {
    let m = matched_volumes(100, ONE, 150, ONE);
    assert_eq!(m, Some(MatchedVolumes { base_volume: 100, target_volume: 100 }));
}

#[test]
fn match_fails_when_reduction_goes_below_zero() {
    // the sell side is absorbed, and the base volume its ratio implies
    // exceeds what the buy order holds
    assert_eq!(matched_volumes(100, 2 * ONE, 40, ONE), None);
    // the buy side is absorbed but the sell order holds less than it
    assert_eq!(matched_volumes(100, ONE / 2, 60, ONE / 2), None);
}

#[test]
fn fee_keeps_one_part_in_a_thousand() {
    assert_eq!(split_fee(1000), (999, 1));
    assert_eq!(split_fee(1_000_000), (999_000, 1000));
    assert_eq!(split_fee(0), (0, 0));
}

#[test]
fn fee_rounds_to_nearest_with_ties_down() {
    // 1398.6 rounds up
    assert_eq!(split_fee(1400), (1399, 1));
    // 1498.5 is a tie and goes down
    assert_eq!(split_fee(1500), (1498, 2));
    // 99.9 rounds up to the whole
    assert_eq!(split_fee(100), (100, 0));
}

#[test]
fn fee_parts_add_up_for_large_volumes() {
    for v in [u128::MAX, u128::MAX - 1, 123_456_789_012_345_678_901, 999_999] {
        let (net, fee) = split_fee(v);
        assert_eq!(net + fee, v);
        assert!(net <= v);
    }
}
