use gamma::curve::calculator::CurveCalculator;
use gamma::error::GammaError;
use gamma::fees::dynamic_fee::{
    DynamicFee, FeeType, PriceInterval, MAX_FEE, MAX_FEE_VOLATILITY, VOLATILITY_WINDOW,
};
use gamma::fees::static_fees::StaticFee;
use gamma::fees::{ceil_div, floor_div, FEE_RATE_DENOMINATOR_VALUE};
use gamma::states::oracle::ObservationState;
use gamma::utils::decimal::Dec;
use gamma::utils::pubkey::Pubkey;

#[test]
fn ceil_div_rounds_up() {
    assert_eq!(ceil_div(10, 3, 4), Some(8));
    assert_eq!(ceil_div(8, 1, 4), Some(2));
    assert_eq!(ceil_div(0, 5, 7), Some(0));
    assert_eq!(ceil_div(1_000_000, 3_000, 1_000_000), Some(3_000));
    assert_eq!(ceil_div(1, 1, 1_000_000), Some(1));
}

#[test]
fn ceil_div_fails_on_zero_denominator_and_overflow() {
    assert_eq!(ceil_div(10, 3, 0), None);
    assert_eq!(ceil_div(0, 0, 0), None);
    assert_eq!(ceil_div(u128::MAX, 2, 1), None);
    assert_eq!(ceil_div(u128::MAX, 1, 1), None);
    assert_eq!(ceil_div(u128::MAX - 1, 1, 1), Some(u128::MAX - 1));
}

#[test]
fn floor_div_rounds_down() {
    assert_eq!(floor_div(10, 3, 4), Some(7));
    assert_eq!(floor_div(8, 1, 4), Some(2));
    assert_eq!(floor_div(999_999, 1, 1_000_000), Some(0));
    assert_eq!(floor_div(u128::MAX, 1, 1), Some(u128::MAX));
}

#[test]
fn floor_div_fails_on_zero_denominator_and_overflow() {
    assert_eq!(floor_div(10, 3, 0), None);
    assert_eq!(floor_div(u128::MAX, 2, 1), None);
}

#[test]
fn static_fee_splits_by_rate() {
    assert_eq!(StaticFee::protocol_fee(1_000_000, 120_000), Some(120_000));
    assert_eq!(StaticFee::fund_fee(1_000_000, 40_000), Some(40_000));
    assert_eq!(StaticFee::protocol_fee(9, 120_000), Some(1));
    assert_eq!(StaticFee::fund_fee(9, 40_000), Some(0));
    assert_eq!(StaticFee::protocol_fee(u128::MAX, 2), None);
}

#[test]
fn fee_shares_fail_with_invalid_fee() {
    assert_eq!(
        CurveCalculator::fee_shares(u128::MAX, 2, 0),
        Err(GammaError::InvalidFee)
    );
    assert_eq!(CurveCalculator::fee_shares(1000, 200_000, 50_000), Ok((200, 50)));
}

#[test]
fn protocol_and_fund_fee_stay_within_the_fee() {
    for fee in [0u128, 1, 7, 999, 1_000_003, u64::MAX as u128] {
        for (p, f) in [(0u64, 0u64), (120_000, 40_000), (500_000, 500_000), (1_000_000, 0)] {
            let (protocol, fund) = CurveCalculator::fee_shares(fee, p, f).unwrap();
            assert!(protocol + fund <= fee);
        }
    }
}

#[test]
fn fee_at_rate_is_rounded_up() {
    assert_eq!(DynamicFee::fee_at_rate(1_000, 3_000), Ok(3));
    assert_eq!(DynamicFee::fee_at_rate(1_001, 3_000), Ok(4));
    assert_eq!(DynamicFee::fee_at_rate(0, 3_000), Ok(0));
    assert_eq!(DynamicFee::fee_at_rate(1, 1), Ok(1));
    assert_eq!(
        DynamicFee::fee_at_rate(u128::MAX, 2),
        Err(GammaError::MathOverflow)
    );
}

#[test]
fn pre_fee_amount_inverts_the_fee() {
    // x = (y * D + (D - r) - 1) / (D - r)
    assert_eq!(DynamicFee::pre_fee_amount_at_rate(997, 3_000), Ok(1_000));
    assert_eq!(DynamicFee::pre_fee_amount_at_rate(1_000, 0), Ok(1_000));
    assert_eq!(DynamicFee::pre_fee_amount_at_rate(1, 999_999), Ok(1_000_000));
    assert_eq!(
        DynamicFee::pre_fee_amount_at_rate(1, 1_000_000),
        Err(GammaError::MathOverflow)
    );
    assert_eq!(
        DynamicFee::pre_fee_amount_at_rate(1, 1_000_001),
        Err(GammaError::MathOverflow)
    );
    assert_eq!(
        DynamicFee::pre_fee_amount_at_rate(u128::MAX, 1),
        Err(GammaError::MathOverflow)
    );
}

#[test]
fn fee_round_trip_reproduces_the_post_fee_amount() {
    for post in [1u128, 2, 997, 1_000, 123_456_789, 10_000_000_000_000] {
        for rate in [1u64, 100, 3_000, 100_000, 500_000, 999_999] {
            let pre = DynamicFee::pre_fee_amount_at_rate(post, rate).unwrap();
            let fee = DynamicFee::fee_at_rate(pre, rate).unwrap();
            assert_eq!(pre - fee, post);
        }
    }
}

#[test]
fn fee_rate_from_volatility_adds_the_surcharge_to_the_base_fee() {
    // 30_000 * 500_000 / 1_000_000 = 15_000
    assert_eq!(DynamicFee::fee_rate_from_volatility(500_000, 3_000), Ok(18_000));
    // the volatility surcharge is held at MAX_FEE - base
    assert_eq!(DynamicFee::fee_rate_from_volatility(u64::MAX, 3_000), Ok(MAX_FEE));
    assert_eq!(DynamicFee::fee_rate_from_volatility(10_000_000, 3_000), Ok(MAX_FEE));
    // no volatility, no surcharge
    assert_eq!(DynamicFee::fee_rate_from_volatility(0, 2_500), Ok(2_500));
    assert_eq!(DynamicFee::fee_rate_from_volatility(33, 2_500), Ok(2_500));
    assert_eq!(DynamicFee::fee_rate_from_volatility(100_000, 2_000), Ok(5_000));
}

#[test]
fn fee_rate_from_volatility_rejects_a_base_fee_above_the_cap() {
    assert_eq!(
        DynamicFee::fee_rate_from_volatility(1, MAX_FEE + 1),
        Err(GammaError::MathOverflow)
    );
    assert_eq!(DynamicFee::fee_rate_from_volatility(0, MAX_FEE), Ok(MAX_FEE));
}

#[test]
fn fee_rate_never_exceeds_the_cap() {
    for scaled in [0u64, 1, 1_000, 1_000_000, u64::MAX] {
        for base in [0u64, 1, 3_000, 99_999, 100_000] {
            let rate = DynamicFee::fee_rate_from_volatility(scaled, base).unwrap();
            assert!(rate <= MAX_FEE);
            assert!(rate >= base);
        }
    }
}

#[test]
fn the_balances_of_the_pool_do_not_enter_the_rate() {
    let state = observations(&[(1_000, 0, 0), (1_010, 100, 7), (1_020, 200, 7), (1_050, 300, 7)]);
    let balanced = DynamicFee::calculate_volatile_fee(1_060, &state, 1_000, 1_000, 3_000);
    assert_eq!(balanced, DynamicFee::calculate_volatile_fee(1_060, &state, 0, 1_000, 3_000));
    assert_eq!(balanced, DynamicFee::calculate_volatile_fee(1_060, &state, u128::MAX, 1, 3_000));
}

#[test]
fn a_price_that_never_moves_gives_the_base_fee() {
    // the price is 200 over both steps
    let state = observations(&[(1_000, 0, 0), (1_010, 200, 7), (1_020, 200, 7), (1_050, 200, 7)]);
    assert_eq!(
        DynamicFee::get_price_range(&state, 1_060, VOLATILITY_WINDOW),
        Ok((200, 200, 200))
    );
    assert_eq!(DynamicFee::scaled_volatility(200, 200, 200), Ok(Some(0)));
    assert_eq!(
        DynamicFee::calculate_volatile_fee(1_060, &state, 0, 1_000, 2_500),
        Ok(2_500)
    );
}

#[test]
fn fee_rate_from_range_follows_the_relative_distance() {
    // (300 - 100) / 100 = 2 -> 2_000_000 / 100 = 20_000 + base, held at 10_000
    assert_eq!(DynamicFee::fee_rate_from_range((100, 300, 200), 500), Ok(MAX_FEE_VOLATILITY));
    // (150 - 100) / 100 = 0 in whole numbers
    assert_eq!(DynamicFee::fee_rate_from_range((100, 150, 120), 500), Ok(500));
    assert_eq!(DynamicFee::fee_rate_from_range((150, 100, 120), 500), Ok(500));
    // (199 - 100) / 100 = 0, (200 - 100) / 100 = 1 -> 10_000
    assert_eq!(DynamicFee::fee_rate_from_range((100, 199, 150), 0), Ok(0));
    assert_eq!(DynamicFee::fee_rate_from_range((100, 200, 150), 0), Ok(10_000));
}

#[test]
fn fee_rate_from_range_without_a_signal_is_the_base_fee() {
    assert_eq!(DynamicFee::fee_rate_from_range((0, 0, 0), 500), Ok(500));
    assert_eq!(DynamicFee::fee_rate_from_range((0, 100, 50), 500), Ok(500));
    assert_eq!(DynamicFee::fee_rate_from_range((100, 100, 0), 500), Ok(500));
    // held at the cap all the same
    assert_eq!(
        DynamicFee::fee_rate_from_range((0, 0, 0), 20_000),
        Ok(MAX_FEE_VOLATILITY)
    );
    assert_eq!(
        DynamicFee::fee_rate_from_range((1, u128::MAX, 5), 500),
        Err(GammaError::MathOverflow)
    );
}

fn interval(price: u128, time_delta: u64) -> PriceInterval {
    PriceInterval { price, time_delta }
}

#[test]
fn twap_weighs_each_price_by_its_seconds() {
    // (100 * 10 + 200 * 30) / 40 = 175
    assert_eq!(
        DynamicFee::twap(&vec![interval(100, 10), interval(200, 30)]),
        Ok(Some(175))
    );
    // (1 * 1 + 2 * 2) / 3 = 1.66..., rounded down
    assert_eq!(
        DynamicFee::twap(&vec![interval(1, 1), interval(2, 2)]),
        Ok(Some(1))
    );
    assert_eq!(DynamicFee::twap(&vec![interval(7, 3)]), Ok(Some(7)));
    assert_eq!(DynamicFee::twap(&vec![]), Ok(None));
}

#[test]
fn twap_fails_on_a_price_that_the_decimal_cannot_hold() {
    // 2^96 does not fit the 96-bit mantissa
    assert_eq!(
        DynamicFee::twap(&vec![interval(1u128 << 96, 1)]),
        Err(GammaError::MathOverflow)
    );
    assert_eq!(
        DynamicFee::twap(&vec![interval((1u128 << 96) - 1, 1)]),
        Ok(Some((1u128 << 96) - 1))
    );
    // the product overflows the decimal
    assert_eq!(
        DynamicFee::twap(&vec![interval((1u128 << 96) - 1, 2)]),
        Err(GammaError::MathOverflow)
    );
}

#[test]
fn price_extremes_are_the_lowest_and_highest_price() {
    assert_eq!(
        DynamicFee::price_extremes(&vec![interval(100, 10), interval(50, 1), interval(200, 30)]),
        (50, 200)
    );
    assert_eq!(DynamicFee::price_extremes(&vec![]), (u128::MAX, 0));
}

#[test]
fn scaled_volatility_is_the_ratio_of_logarithms() {
    // (ln 200 - ln 100) / ln 150 = 0.693147... / 5.010635... = 0.138335...
    assert_eq!(DynamicFee::scaled_volatility(100, 200, 150), Ok(Some(138_335)));
    // no spread, no volatility
    assert_eq!(DynamicFee::scaled_volatility(150, 150, 150), Ok(Some(0)));
    // ln 1 = 0: no measure
    assert_eq!(DynamicFee::scaled_volatility(1, 2, 1), Ok(None));
    // ln 0 does not exist
    assert_eq!(
        DynamicFee::scaled_volatility(0, 2, 3),
        Err(GammaError::MathOverflow)
    );
    assert_eq!(
        DynamicFee::scaled_volatility(1, 1u128 << 96, 3),
        Err(GammaError::MathOverflow)
    );
}

fn observations(points: &[(u64, u128, u128)]) -> ObservationState {
    let mut state = ObservationState::new(Pubkey::default());
    for (timestamp, price_0, price_1) in points {
        state.update(*timestamp, *price_0, *price_1).unwrap();
    }
    state
}

#[test]
fn window_intervals_follow_the_ring() {
    // the first observation has accumulators of zero and does not count
    let state = observations(&[(1_000, 0, 0), (1_010, 100, 7), (1_020, 200, 7), (1_050, 300, 7)]);
    // accumulators: 1010 -> 1000, 1020 -> 3000, 1050 -> 12000
    let intervals = DynamicFee::window_intervals(&state, 1_060, VOLATILITY_WINDOW).unwrap();
    assert_eq!(intervals, vec![interval(200, 10), interval(300, 30)]);
    // a window that reaches back to 1020 only
    let intervals = DynamicFee::window_intervals(&state, 1_060, 40).unwrap();
    assert_eq!(intervals, vec![interval(300, 30)]);
    // one observation in the window gives no interval
    let intervals = DynamicFee::window_intervals(&state, 1_060, 10).unwrap();
    assert_eq!(intervals, vec![]);
}

#[test]
fn price_range_of_the_last_hour() {
    let state = observations(&[(1_000, 0, 0), (1_010, 100, 7), (1_020, 200, 7), (1_050, 300, 7)]);
    // (200 * 10 + 300 * 30) / 40 = 275
    assert_eq!(
        DynamicFee::get_price_range(&state, 1_060, VOLATILITY_WINDOW),
        Ok((200, 300, 275))
    );
    let empty = ObservationState::new(Pubkey::default());
    assert_eq!(
        DynamicFee::get_price_range(&empty, 1_060, VOLATILITY_WINDOW),
        Ok((0, 0, 0))
    );
}

#[test]
fn volatile_fee_is_the_base_fee_without_observations() {
    let empty = ObservationState::new(Pubkey::default());
    assert_eq!(
        DynamicFee::calculate_volatile_fee(1_060, &empty, 1_000, 1_000, 3_000),
        Ok(3_000)
    );
    // without a price range the base fee comes back even above the cap
    assert_eq!(
        DynamicFee::calculate_volatile_fee(1_060, &empty, 1_000, 1_000, 200_000),
        Ok(200_000)
    );
    assert_eq!(
        DynamicFee::calculate_dynamic_fee(1_060, &empty, 1_000, 1_000, FeeType::Volatility, 3_000),
        Ok(3_000)
    );
}

#[test]
fn volatile_fee_rises_with_the_price_range() {
    let state = observations(&[(1_000, 0, 0), (1_010, 100, 7), (1_020, 200, 7), (1_050, 300, 7)]);
    // range (200, 300, 275): (ln 300 - ln 200) / ln 275 = 0.405465 / 5.616771 = 0.072188...
    let scaled = DynamicFee::scaled_volatility(200, 300, 275).unwrap().unwrap();
    assert_eq!(scaled, 72_188);
    // 30_000 * 72_188 / 1_000_000 = 2_165
    assert_eq!(
        DynamicFee::calculate_volatile_fee(1_060, &state, 1_000, 1_000, 3_000),
        Ok(3_000 + 2_165)
    );
    assert_eq!(
        DynamicFee::fee_rate_from_price_range((200, 300, 275), 3_000),
        Ok(5_165)
    );
    // the fee on an amount at that rate, rounded up: 1_000_000 * 5_165 / 1_000_000
    assert_eq!(
        DynamicFee::dynamic_fee(1_000_001, 1_060, &state, 1_000, 1_000, FeeType::Volatility, 3_000),
        Ok(5_166)
    );
    let pre = DynamicFee::calculate_pre_fee_amount(
        1_060,
        994_835,
        &state,
        1_000,
        1_000,
        FeeType::Volatility,
        3_000,
    )
    .unwrap();
    assert_eq!(pre, 1_000_000);
}

#[test]
fn volatility_fee_of_the_older_kind() {
    let state = observations(&[(1_000, 0, 0), (1_010, 100, 7), (1_020, 200, 7), (1_050, 700, 7)]);
    // range (200, 700): (700 - 200) / 200 = 2 -> 2_000_000 / 100 + 500, held at 10_000
    assert_eq!(
        DynamicFee::calculate_volatility_fee(1_060, &state, 500),
        Ok(MAX_FEE_VOLATILITY)
    );
    // without observations the base fee comes back, held at the cap
    let empty = ObservationState::new(Pubkey::default());
    assert_eq!(DynamicFee::calculate_volatility_fee(1_060, &empty, 500), Ok(500));
    assert_eq!(
        DynamicFee::calculate_volatility_fee(1_060, &empty, 50_000),
        Ok(MAX_FEE_VOLATILITY)
    );
    let one = observations(&[(1_000, 0, 0), (1_010, 100, 7)]);
    assert_eq!(DynamicFee::calculate_volatility_fee(1_060, &one, 500), Ok(500));
}

#[test]
fn denominator_is_a_million() {
    assert_eq!(FEE_RATE_DENOMINATOR_VALUE, 1_000_000);
}

#[test]
fn decimal_numbers_lose_their_sign() {
    assert_eq!(Dec::zero(), Dec { mantissa: 0, scale: 0 });
    assert!(Dec::zero().is_zero());
    assert!(Dec { mantissa: 0, scale: 7 }.is_zero());
    assert!(!Dec { mantissa: 1, scale: 28 }.is_zero());
    assert_eq!(Dec { mantissa: -15, scale: 1 }.abs(), Dec { mantissa: 15, scale: 1 });
    assert_eq!(Dec { mantissa: 15, scale: 1 }.abs(), Dec { mantissa: 15, scale: 1 });
}
