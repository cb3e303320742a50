use gamma::curve::calculator::CurveCalculator;
use gamma::curve::constant_product::ConstantProductCurve;
use gamma::curve::{RoundDirection, SwapResult, TradeDirection, TradingTokenResult};
use gamma::error::GammaError;
use gamma::states::config::AmmConfig;
use gamma::states::oracle::ObservationState;
use gamma::states::pool::PoolState;
use gamma::utils::pubkey::Pubkey;

#[test]
fn swap_without_fees_rounds_the_output_down() {
    // 100 * 1000 / (1000 + 100) = 90.9...
    assert_eq!(
        ConstantProductCurve::swap_base_input_without_fees(100, 1_000, 1_000),
        Ok(90)
    );
    assert_eq!(
        ConstantProductCurve::swap_base_input_without_fees(0, 1_000, 1_000),
        Ok(0)
    );
    assert_eq!(ConstantProductCurve::swap_base_input_without_fees(1, 3, 3), Ok(0));
    // the output is what the balance loses when the new balance is rounded up:
    // 1000 - ceil(1_000_000 / 1100) = 1000 - 910
    let kept = (1_000u128 * 1_000 + 1_100 - 1) / 1_100;
    assert_eq!(1_000 - kept, 90);
}

#[test]
fn swap_without_fees_fails_on_overflow_and_on_an_empty_pool() {
    assert_eq!(
        ConstantProductCurve::swap_base_input_without_fees(u128::MAX, 1, 2),
        Err(GammaError::MathOverflow)
    );
    assert_eq!(
        ConstantProductCurve::swap_base_input_without_fees(1, u128::MAX, 1),
        Err(GammaError::MathOverflow)
    );
    assert_eq!(
        ConstantProductCurve::swap_base_input_without_fees(0, 0, 5),
        Err(GammaError::MathOverflow)
    );
}

#[test]
fn swap_for_a_given_output_rounds_the_input_up() {
    // 1000 * 90 / (1000 - 90) = 98.9...
    assert_eq!(
        ConstantProductCurve::swap_base_output_without_fees(90, 1_000, 1_000),
        Ok(99)
    );
    assert_eq!(
        ConstantProductCurve::swap_base_output_without_fees(0, 1_000, 1_000),
        Ok(0)
    );
    assert_eq!(
        ConstantProductCurve::swap_base_output_without_fees(1_000, 1_000, 1_000),
        Err(GammaError::MathOverflow)
    );
    assert_eq!(
        ConstantProductCurve::swap_base_output_without_fees(1_001, 1_000, 1_000),
        Err(GammaError::MathOverflow)
    );
}

#[test]
fn lp_tokens_convert_by_share() {
    assert_eq!(
        ConstantProductCurve::lp_tokens_to_trading_tokens(10, 30, 100, 200, RoundDirection::Floor),
        Some(TradingTokenResult {
            token_0_amount: 33,
            token_1_amount: 66
        })
    );
    assert_eq!(
        ConstantProductCurve::lp_tokens_to_trading_tokens(10, 30, 100, 200, RoundDirection::Ceiling),
        Some(TradingTokenResult {
            token_0_amount: 34,
            token_1_amount: 67
        })
    );
    assert_eq!(
        CurveCalculator::lp_tokens_to_trading_tokens(10, 20, 100, 200, RoundDirection::Ceiling),
        Some(TradingTokenResult {
            token_0_amount: 50,
            token_1_amount: 100
        })
    );
    assert_eq!(
        ConstantProductCurve::lp_tokens_to_trading_tokens(10, 0, 100, 200, RoundDirection::Floor),
        None
    );
    assert_eq!(
        ConstantProductCurve::lp_tokens_to_trading_tokens(u128::MAX, 1, 2, 2, RoundDirection::Floor),
        None
    );
}

#[test]
fn swap_at_a_rate_charges_the_fee_on_the_input() {
    let result = CurveCalculator::swap_base_input_at_rate(
        10_000_000,
        20_000_000_000_000,
        10_000_000_000_000,
        20,
        5,
        100,
    )
    .unwrap();
    assert_eq!(
        result,
        SwapResult {
            new_swap_source_amount: 20_000_010_000_000,
            new_swap_destination_amount: 9_999_995_000_503,
            source_amount_swapped: 10_000_000,
            destination_amount_swapped: 4_999_497,
            dynamic_fee: 1_000,
            protocol_fee: 0,
            fund_fee: 0,
            dynamic_fee_rate: 100,
        }
    );
}

#[test]
fn swap_at_a_rate_above_the_whole_fails() {
    assert_eq!(
        CurveCalculator::swap_base_input_at_rate(10, 1_000, 1_000, 0, 0, 2_000_000),
        Err(GammaError::MathOverflow)
    );
    assert_eq!(
        CurveCalculator::swap_base_input_at_rate(10, u128::MAX - 5, 1_000, 0, 0, 0),
        Err(GammaError::MathOverflow)
    );
}

#[test]
fn product_of_balances_never_falls() {
    let cases: [(u128, u128, u128, u64); 8] = [
        (1, 3, 3, 0),
        (2, 1_000_000, 10, 1),
        (1_000, 1_000, 1_000, 3_000),
        (7, 13, 1_000_003, 100_000),
        (123_456_789, 987_654_321, 55_555, 2_500),
        (10_000_000, 20_000_000_000_000, 10_000_000_000_000, 100),
        (1, 1, u64::MAX as u128, 999_999),
        (u64::MAX as u128, u64::MAX as u128, u64::MAX as u128, 0),
    ];
    for (amount, source, destination, rate) in cases {
        let result =
            CurveCalculator::swap_base_input_at_rate(amount, source, destination, 120_000, 40_000, rate)
                .unwrap();
        assert!(
            result.new_swap_source_amount * result.new_swap_destination_amount >= source * destination
        );
        assert!(result.protocol_fee + result.fund_fee <= result.dynamic_fee);
        assert_eq!(result.source_amount_swapped, amount);
    }
}

#[test]
fn swap_for_a_given_output_at_a_rate() {
    // the curve asks for 99, the fee of 1% raises it to 100
    let result = CurveCalculator::swap_base_output_at_rate(90, 1_000, 1_000, 200_000, 100_000, 10_000).unwrap();
    assert_eq!(
        result,
        SwapResult {
            new_swap_source_amount: 1_100,
            new_swap_destination_amount: 910,
            source_amount_swapped: 100,
            destination_amount_swapped: 90,
            dynamic_fee: 1,
            protocol_fee: 0,
            fund_fee: 0,
            dynamic_fee_rate: 10_000,
        }
    );
    assert!(1_100u128 * 910 >= 1_000 * 1_000);
}

fn pool(token_0: u64, token_1: u64) -> PoolState {
    let mut pool_state = PoolState::default();
    pool_state.token_0_vault_amount = token_0;
    pool_state.token_1_vault_amount = token_1;
    pool_state
}

#[test]
fn swap_without_observations_charges_the_base_fee() {
    let amm_config = AmmConfig::new(0, 100, 20, 5);
    let pool_state = pool(20_000_000_000_000, 10_000_000_000_000);
    let observation_state = ObservationState::new(Pubkey::default());
    let result = CurveCalculator::swap_base_input(
        10_000_000,
        20_000_000_000_000,
        10_000_000_000_000,
        &amm_config,
        &pool_state,
        1_000,
        &observation_state,
        false,
    )
    .unwrap();
    assert_eq!(result.dynamic_fee_rate, 100);
    assert_eq!(result.dynamic_fee, 1_000);
    assert_eq!(result.destination_amount_swapped, 4_999_497);
    // who calls does not change the price
    let privileged = CurveCalculator::swap_base_input(
        10_000_000,
        20_000_000_000_000,
        10_000_000_000_000,
        &amm_config,
        &pool_state,
        1_000,
        &observation_state,
        true,
    )
    .unwrap();
    assert_eq!(result, privileged);
}

#[test]
fn swap_for_a_given_output_without_observations() {
    let observation_state = ObservationState::new(Pubkey::default());
    let result = CurveCalculator::swap_base_output(
        90,
        1_000,
        1_000,
        10_000,
        200_000,
        100_000,
        1_000,
        &observation_state,
        TradeDirection::ZeroForOne,
    )
    .unwrap();
    assert_eq!(result.source_amount_swapped, 100);
    assert_eq!(result.destination_amount_swapped, 90);
    assert_eq!(result.dynamic_fee, 1);
    let other_way = CurveCalculator::swap_base_output(
        90,
        1_000,
        1_000,
        10_000,
        200_000,
        100_000,
        1_000,
        &observation_state,
        TradeDirection::OneForZero,
    )
    .unwrap();
    assert_eq!(result, other_way);
}
