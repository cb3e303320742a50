use gamma::curve::calculator::CurveCalculator;
use gamma::curve::oracle_based_swap_calculator::{OracleBasedSwapCalculator, SwapRoute, D9, D9_TIMES_D9};
use gamma::curve::{SwapResult, TradeDirection};
use gamma::error::GammaError;
use gamma::fees::FEE_RATE_DENOMINATOR_VALUE;
use gamma::instructions::admin::{oracle_price_update, update_pool, OracleSwapLimits};
use gamma::quote::{get_oracle_based_swap_quote_amount, get_swap_base_input_quote_amount, QuoteInput};
use gamma::states::config::AmmConfig;
use gamma::states::oracle::ObservationState;
use gamma::states::pool::PoolState;
use gamma::utils::pubkey::Pubkey;

const NOW: u64 = 1_700_000_100;

fn limits() -> OracleSwapLimits {
    OracleSwapLimits {
        max_oracle_price_difference: FEE_RATE_DENOMINATOR_VALUE,
        max_amount_swappable_at_oracle_price: FEE_RATE_DENOMINATOR_VALUE,
        max_oracle_price_premium: FEE_RATE_DENOMINATOR_VALUE,
    }
}

fn amm_config() -> AmmConfig {
    AmmConfig::new(0, 100, 20, 5)
}

fn pool_setup() -> PoolState {
    let mut pool_state = PoolState::default();
    pool_state.token_0_vault_amount = 20000000000000;
    pool_state.token_1_vault_amount = 10000000000000;
    pool_state.lp_supply = 14142135623730;
    pool_state.open_time = NOW - 100;
    pool_state.max_oracle_price_update_time_diff = 60;
    pool_state
}

fn reserves(pool_state: &PoolState, trade_direction: TradeDirection) -> (u128, u128) {
    if trade_direction == TradeDirection::OneForZero {
        (
            pool_state.token_1_vault_amount.into(),
            pool_state.token_0_vault_amount.into(),
        )
    } else {
        (
            pool_state.token_0_vault_amount.into(),
            pool_state.token_1_vault_amount.into(),
        )
    }
}

fn get_quote(pool_state: &PoolState, amount_in: u64, trade_direction: TradeDirection) -> SwapResult {
    let (source, destination) = reserves(pool_state, trade_direction);
    CurveCalculator::swap_base_input(
        amount_in.into(),
        source,
        destination,
        &amm_config(),
        pool_state,
        NOW,
        &ObservationState::new(Pubkey::default()),
        false,
    )
    .unwrap()
}

fn oracle_swap(pool_state: &PoolState, amount_in: u64, trade_direction: TradeDirection) -> SwapResult {
    let (source, destination) = reserves(pool_state, trade_direction);
    OracleBasedSwapCalculator::swap_base_input(
        amount_in.into(),
        source,
        destination,
        &amm_config(),
        pool_state,
        NOW,
        &ObservationState::new(Pubkey::default()),
        false,
    )
    .unwrap()
}

fn configure(pool_state: &mut PoolState, difference: u64, swappable: u64, min_rate: u64, premium: u64) {
    update_pool(pool_state, 6, difference, NOW, 0, &limits()).unwrap();
    update_pool(pool_state, 7, swappable, NOW, 0, &limits()).unwrap();
    update_pool(pool_state, 8, min_rate, NOW, 0, &limits()).unwrap();
    update_pool(pool_state, 9, premium, NOW, 0, &limits()).unwrap();
}

#[test]
fn oracle_based_swaps_should_swap_with_old_calculator_if_oracle_price_is_not_updated() {
    for trade_direction in [TradeDirection::ZeroForOne, TradeDirection::OneForZero] {
        let mut pool_state = pool_setup();
        configure(
            &mut pool_state,
            FEE_RATE_DENOMINATOR_VALUE / 100,
            FEE_RATE_DENOMINATOR_VALUE / 100,
            FEE_RATE_DENOMINATOR_VALUE / 100,
            FEE_RATE_DENOMINATOR_VALUE / 10000,
        );
        let amount_in = 10000000;
        let quote = get_quote(&pool_state, amount_in, trade_direction);
        let swapped = oracle_swap(&pool_state, amount_in, trade_direction);
        // We expect the amount out to exactly what is quoted with old calculator
        assert_eq!(quote.destination_amount_swapped, swapped.destination_amount_swapped);
        assert_eq!(quote, swapped);
    }
}

#[test]
fn oracle_based_swaps_should_swap_with_new_calculator_if_oracle_price_is_updated() {
    for trade_direction in [TradeDirection::ZeroForOne, TradeDirection::OneForZero] {
        let mut pool_state = pool_setup();
        configure(
            &mut pool_state,
            FEE_RATE_DENOMINATOR_VALUE / 100,
            FEE_RATE_DENOMINATOR_VALUE / 100,
            FEE_RATE_DENOMINATOR_VALUE / 10000,
            FEE_RATE_DENOMINATOR_VALUE / 10000,
        );
        // Set it same as the current pool price
        oracle_price_update(&mut pool_state, 20000000000000 * D9 / 10000000000000, NOW).unwrap();

        let amount_in = 10000000;
        let quote = get_quote(&pool_state, amount_in, trade_direction);
        let swapped = oracle_swap(&pool_state, amount_in, trade_direction);
        // We expect the amount out to be more than what is quoted with old calculator
        assert!(quote.destination_amount_swapped < swapped.destination_amount_swapped);
    }
}

#[test]
fn oracle_based_swaps_should_use_old_calculator_if_amount_in_is_large() {
    for trade_direction in [TradeDirection::ZeroForOne, TradeDirection::OneForZero] {
        let mut pool_state = pool_setup();
        configure(
            &mut pool_state,
            FEE_RATE_DENOMINATOR_VALUE / 1000,
            FEE_RATE_DENOMINATOR_VALUE / 100,
            FEE_RATE_DENOMINATOR_VALUE / 10000,
            FEE_RATE_DENOMINATOR_VALUE / 10000,
        );
        oracle_price_update(&mut pool_state, 20000000000000 * D9 / 10000000000000, NOW).unwrap();

        let amount_in = 100000000000;
        let quote = get_quote(&pool_state, amount_in, trade_direction);
        let swapped = oracle_swap(&pool_state, amount_in, trade_direction);
        // We expect the amount out to be more than what is quoted with old calculator
        assert!(quote.destination_amount_swapped < swapped.destination_amount_swapped);
        // We expect some amount to be traded with the old calculator
        assert!(
            swapped.destination_amount_swapped
                < (20000000000000_u128 * amount_in as u128) / 10000000000000
        );
    }
}

#[test]
fn blended_swap_has_exact_amounts() {
    let mut pool_state = pool_setup();
    configure(
        &mut pool_state,
        FEE_RATE_DENOMINATOR_VALUE / 1000,
        FEE_RATE_DENOMINATOR_VALUE / 100,
        FEE_RATE_DENOMINATOR_VALUE / 10000,
        FEE_RATE_DENOMINATOR_VALUE / 10000,
    );
    oracle_price_update(&mut pool_state, 2 * D9, NOW).unwrap();
    let route = OracleBasedSwapCalculator::decide_route(
        100000000000,
        20000000000000,
        10000000000000,
        &pool_state,
        NOW,
    )
    .unwrap();
    assert_eq!(
        route,
        SwapRoute::UseOracleBlend {
            oracle_price: 500_000_000,
            amount_at_oracle_price: 10_005_002_501,
            amount_with_invariant_curve: 100000000000 - 10_005_002_501,
        }
    );
    let swapped = oracle_swap(&pool_state, 100000000000, TradeDirection::ZeroForOne);
    assert_eq!(
        swapped,
        SwapResult {
            new_swap_source_amount: 20_100_000_000_000,
            new_swap_destination_amount: 9_950_250_721_307,
            source_amount_swapped: 100_000_000_000,
            destination_amount_swapped: 49_749_278_693,
            dynamic_fee: 10_000_001,
            protocol_fee: 200,
            fund_fee: 50,
            dynamic_fee_rate: 100,
        }
    );
    let other_way = oracle_swap(&pool_state, 100000000000, TradeDirection::OneForZero);
    assert_eq!(other_way.destination_amount_swapped, 198_006_132_180);
    assert_eq!(other_way.new_swap_destination_amount, 19_801_993_867_820);
}

#[test]
fn blend_at_a_rate_matches_the_blended_swap() {
    let direct = OracleBasedSwapCalculator::swap_with_oracle_blend_at_rate(
        100000000000,
        20000000000000,
        10000000000000,
        500_000_000,
        10_005_002_501,
        100,
        100,
        20,
        5,
        100,
    )
    .unwrap();
    assert_eq!(direct.destination_amount_swapped, 49_749_278_693);
    assert_eq!(direct.dynamic_fee, 10_000_001);
    // the oracle part pays the larger of the two rates
    let dearer = OracleBasedSwapCalculator::swap_with_oracle_blend_at_rate(
        100000000000,
        20000000000000,
        10000000000000,
        500_000_000,
        10_005_002_501,
        10_000,
        100,
        20,
        5,
        100,
    )
    .unwrap();
    // ceil(10_005_002_501 * 10_000 / 1_000_000) + ceil(89_994_997_499 * 100 / 1_000_000)
    assert_eq!(dearer.dynamic_fee, 100_050_026 + 8_999_500);
    assert!(dearer.destination_amount_swapped < direct.destination_amount_swapped);
    // more at the oracle price than the whole input
    assert_eq!(
        OracleBasedSwapCalculator::swap_with_oracle_blend_at_rate(10, 1_000, 1_000, D9, 11, 0, 0, 0, 0, 0),
        Err(GammaError::MathOverflow)
    );
}

#[test]
fn stale_oracle_price_falls_back_to_the_curve() {
    let mut pool_state = pool_setup();
    configure(&mut pool_state, 10_000, 10_000, 100, 100);
    pool_state.oracle_price_token_0_by_token_1 = 2 * D9;
    pool_state.oracle_price_updated_at = 1000;
    pool_state.max_oracle_price_update_time_diff = 60;
    let amm_config = amm_config();
    let observation_state = ObservationState::new(Pubkey::default());
    // ten seconds too late
    let at_1070 = OracleBasedSwapCalculator::swap_base_input(
        10000000,
        20000000000000,
        10000000000000,
        &amm_config,
        &pool_state,
        1070,
        &observation_state,
        false,
    );
    let curve = CurveCalculator::swap_base_input(
        10000000,
        20000000000000,
        10000000000000,
        &amm_config,
        &pool_state,
        1070,
        &observation_state,
        false,
    );
    assert_eq!(at_1070, curve);
    assert_eq!(
        OracleBasedSwapCalculator::decide_route(10000000, 20000000000000, 10000000000000, &pool_state, 1070),
        Ok(SwapRoute::UseCurveOnly)
    );
    // just in time
    assert!(matches!(
        OracleBasedSwapCalculator::decide_route(10000000, 20000000000000, 10000000000000, &pool_state, 1060),
        Ok(SwapRoute::UseOracleBlend { .. })
    ));
    // a price from the future
    assert_eq!(
        OracleBasedSwapCalculator::decide_route(10000000, 20000000000000, 10000000000000, &pool_state, 999),
        Ok(SwapRoute::UseCurveOnly)
    );
    // no price at all
    pool_state.oracle_price_token_0_by_token_1 = 0;
    assert_eq!(
        OracleBasedSwapCalculator::decide_route(10000000, 20000000000000, 10000000000000, &pool_state, 1060),
        Ok(SwapRoute::UseCurveOnly)
    );
}

#[test]
fn price_too_far_from_the_oracle_falls_back_to_the_curve() {
    let mut pool_state = pool_setup();
    configure(&mut pool_state, 10_000, 10_000, 100, 100);
    // the pool trades at 0.5, the oracle says 0.4 for a swap that takes token 0
    oracle_price_update(&mut pool_state, D9_TIMES_D9 / 400_000_000, NOW).unwrap();
    assert_eq!(
        OracleBasedSwapCalculator::decide_route(10000000, 20000000000000, 10000000000000, &pool_state, NOW),
        Ok(SwapRoute::UseCurveOnly)
    );
    let quote = get_quote(&pool_state, 10000000, TradeDirection::ZeroForOne);
    let swapped = oracle_swap(&pool_state, 10000000, TradeDirection::ZeroForOne);
    assert_eq!(quote, swapped);
}

#[test]
fn nothing_at_the_oracle_price_falls_back_to_the_curve() {
    let mut pool_state = pool_setup();
    // nothing of the balance may trade at the oracle price
    configure(&mut pool_state, 10_000, 0, 100, 100);
    oracle_price_update(&mut pool_state, 2 * D9, NOW).unwrap();
    assert_eq!(
        OracleBasedSwapCalculator::decide_route(10000000, 20000000000000, 10000000000000, &pool_state, NOW),
        Ok(SwapRoute::UseCurveOnly)
    );
    let quote = get_quote(&pool_state, 10000000, TradeDirection::ZeroForOne);
    let swapped = oracle_swap(&pool_state, 10000000, TradeDirection::ZeroForOne);
    assert_eq!(quote, swapped);
}

#[test]
fn oracle_tranche_is_capped_by_the_share_of_the_balance() {
    let mut pool_state = PoolState::default();
    pool_state.max_amount_swappable_at_oracle_price = 100_000;
    pool_state.acceptable_price_difference = 50_000;
    for requested in [100u128, 101, 1_000, 1_000_000, u64::MAX as u128] {
        let amount = OracleBasedSwapCalculator::get_amount_to_be_swapped_at_oracle_price(
            requested,
            1000,
            1000,
            1_000_000_000 * D9,
            &pool_state,
        )
        .unwrap();
        assert!(amount <= 1000 * 100_000 / 1_000_000);
        assert_eq!(amount, 100);
    }
    let small = OracleBasedSwapCalculator::get_amount_to_be_swapped_at_oracle_price(
        7,
        1000,
        1000,
        1_000_000_000 * D9,
        &pool_state,
    )
    .unwrap();
    assert_eq!(small, 7);
}

#[test]
fn oracle_helpers_fail_on_overflow() {
    let pool_state = PoolState::default();
    assert_eq!(
        OracleBasedSwapCalculator::get_amount_to_be_swapped_at_oracle_price(1, 1, 1, 0, &pool_state),
        Err(GammaError::MathOverflow)
    );
    assert_eq!(
        OracleBasedSwapCalculator::get_amount_to_be_swapped_at_oracle_price(1, 1, u128::MAX, D9, &pool_state),
        Err(GammaError::MathOverflow)
    );
    assert_eq!(
        OracleBasedSwapCalculator::get_spot_price_and_oracle_price_rate_difference(0, 5),
        Err(GammaError::MathOverflow)
    );
    assert_eq!(
        OracleBasedSwapCalculator::get_spot_price_and_oracle_price_rate_difference(1, u128::MAX),
        Err(GammaError::MathOverflow)
    );
    assert_eq!(
        OracleBasedSwapCalculator::get_execution_oracle_price(u128::MAX, 2),
        Err(GammaError::MathOverflow)
    );
    assert_eq!(
        OracleBasedSwapCalculator::get_execution_oracle_price(u128::MAX, 1_000_000),
        Err(GammaError::MathOverflow)
    );
}

#[test]
fn quotes_pick_the_balances_by_direction() {
    let mut pool_state = pool_setup();
    configure(&mut pool_state, 10_000, 10_000, 100, 100);
    oracle_price_update(&mut pool_state, 2 * D9, NOW).unwrap();
    let quote_input = QuoteInput {
        source_amount_to_be_swapped: 10000000,
        amm_config: amm_config(),
        pool_state,
        observation_state: ObservationState::new(Pubkey::default()),
        zero_for_one: true,
        is_invoked_by_signed_segmenter: false,
    };
    let curve = get_swap_base_input_quote_amount(&quote_input, NOW).unwrap();
    assert_eq!(curve.destination_amount_swapped, 4_999_497);
    let blended = get_oracle_based_swap_quote_amount(&quote_input, NOW).unwrap();
    assert_eq!(blended.destination_amount_swapped, 4_999_999);
    let other_way = QuoteInput {
        zero_for_one: false,
        ..quote_input
    };
    let curve = get_swap_base_input_quote_amount(&other_way, NOW).unwrap();
    assert_eq!(curve.destination_amount_swapped, 19_997_980);
    let blended = get_oracle_based_swap_quote_amount(&other_way, NOW).unwrap();
    assert_eq!(blended.destination_amount_swapped, 19_999_999);
}

#[test]
fn the_curve_part_trades_on_the_balances_the_oracle_part_left() {
    let mut pool_state = PoolState::default();
    pool_state.token_0_vault_amount = 10_000;
    pool_state.token_1_vault_amount = 10_000;
    pool_state.oracle_price_token_0_by_token_1 = D9;
    pool_state.oracle_price_updated_at = 1000;
    pool_state.max_oracle_price_update_time_diff = 60;
    pool_state.acceptable_price_difference = 50_000;
    pool_state.max_amount_swappable_at_oracle_price = 10_000;
    pool_state.min_trade_rate_at_oracle_price = 50_000;
    let amm_config = AmmConfig::new(0, 0, 0, 0);
    let observation_state = ObservationState::new(Pubkey::default());
    let swapped = OracleBasedSwapCalculator::swap_base_input(
        2_625,
        10_000,
        10_000,
        &amm_config,
        &pool_state,
        1030,
        &observation_state,
        false,
    )
    .unwrap();
    // 100 at the oracle price: fee 5, 95 out. Then 2_525 on balances of
    // 10_100 and 9_905: 2_525 * 9_905 / 12_625 = 1_981.
    assert_eq!(swapped.destination_amount_swapped, 2_076);
    assert_eq!(swapped.new_swap_source_amount, 12_625);
    assert_eq!(swapped.new_swap_destination_amount, 7_924);
    assert_eq!(swapped.dynamic_fee, 5);
    assert_eq!(swapped.dynamic_fee_rate, 1_904);
    assert!(
        swapped.new_swap_source_amount * swapped.new_swap_destination_amount >= 10_000 * 10_000
    );
}

#[test]
fn an_oracle_part_that_pays_out_more_than_the_pool_has_fails() {
    // 1_000 at a price of 20 would pay out 20_000 of a balance of 10_000
    assert_eq!(
        OracleBasedSwapCalculator::swap_with_oracle_blend_at_rate(
            1_000,
            10_000,
            10_000,
            20 * D9,
            1_000,
            0,
            0,
            0,
            0,
            0
        ),
        Err(GammaError::MathOverflow)
    );
}
