use gamma::curve::oracle_based_swap_calculator::{OracleBasedSwapCalculator, D9};
use gamma::states::pool::PoolState;

#[test]
fn test_get_amount_to_be_swapped_at_oracle_price_basic_scenarios() {
    let mut pool_state = PoolState::default();
    pool_state.max_amount_swappable_at_oracle_price = 100_000; // 10% max swap at oracle
    pool_state.acceptable_price_difference = 50_000; // 5% acceptable difference

    // Test case 1: Normal swap within limits
    let result = OracleBasedSwapCalculator::get_amount_to_be_swapped_at_oracle_price(
        1_000,              // source_amount_to_be_swapped
        10_000,             // swap_source_amount
        10_000,             // swap_destination_amount
        1_000_000_000 * D9, // oracle_price (1:1 in D9)
        &pool_state,
    )
    .unwrap();

    assert!(result > 0, "Should allow normal swap within limits");
    assert!(result <= 1_000, "Should not exceed source amount");

    // Test case 2: Trying to swap more than max allowed
    let result = OracleBasedSwapCalculator::get_amount_to_be_swapped_at_oracle_price(
        2_000,              // source_amount_to_be_swapped (larger than max allowed)
        10_000,             // swap_source_amount
        10_000,             // swap_destination_amount
        1_000_000_000 * D9, // oracle_price
        &pool_state,
    )
    .unwrap();

    let expected_max = 10_000 * 100_000 / 1_000_000; // max_amount_swappable_at_oracle_price
    assert_eq!(
        result, expected_max,
        "Should be limited by max_amount_swappable_at_oracle_price"
    );
}

#[test]
fn test_get_amount_to_be_swapped_at_oracle_price_price_limits() {
    let mut pool_state = PoolState::default();
    pool_state.max_amount_swappable_at_oracle_price = 100_000;
    pool_state.acceptable_price_difference = 50_000; // 5% acceptable difference

    // Test case: When current pool state is at the acceptable price difference limit
    let result = OracleBasedSwapCalculator::get_amount_to_be_swapped_at_oracle_price(
        1_000,              // source_amount_to_be_swapped
        100_000,            // swap_source_amount
        95_000,             // swap_destination_amount (5% difference from 1:1)
        1_000_000_000 * D9, // oracle_price
        &pool_state,
    )
    .unwrap();

    assert!(result > 0, "Should allow swap at price difference limit");
    assert!(result <= 1_000, "Should not exceed source amount");
}

#[test]
fn test_get_amount_to_be_swapped_at_oracle_price_edge_cases() {
    let mut pool_state = PoolState::default();
    pool_state.max_amount_swappable_at_oracle_price = 100_000;
    pool_state.acceptable_price_difference = 50_000;

    // Test case 1: Minimum values
    let result = OracleBasedSwapCalculator::get_amount_to_be_swapped_at_oracle_price(
        1,                  // source_amount_to_be_swapped
        1,                  // swap_source_amount
        1,                  // swap_destination_amount
        1_000_000_000 * D9, // oracle_price
        &pool_state,
    )
    .unwrap();

    assert!(result <= 1, "Should handle minimum values correctly");

    // Test case 2: Zero source amount
    let result = OracleBasedSwapCalculator::get_amount_to_be_swapped_at_oracle_price(
        0,                  // source_amount_to_be_swapped
        1000,               // swap_source_amount
        1000,               // swap_destination_amount
        1_000_000_000 * D9, // oracle_price
        &pool_state,
    )
    .unwrap();

    assert_eq!(result, 0, "Should handle zero source amount");
}

#[test]
fn test_get_amount_to_be_swapped_at_oracle_price_pool_constraints() {
    // Test case 1: Very restrictive pool settings
    let mut restrictive_pool = PoolState::default();
    restrictive_pool.max_amount_swappable_at_oracle_price = 1_000; // Only 0.1% at oracle
    restrictive_pool.acceptable_price_difference = 10_000; // Only 1% difference allowed

    let result = OracleBasedSwapCalculator::get_amount_to_be_swapped_at_oracle_price(
        10_000,        // source_amount_to_be_swapped
        100_000,       // swap_source_amount
        100_000,       // swap_destination_amount
        1_000_000_000, // oracle_price
        &restrictive_pool,
    )
    .unwrap();

    let expected_max = 100_000 * 1_000 / 1_000_000; // max_amount_swappable_at_oracle_price
    assert_eq!(
        result, expected_max,
        "Should respect restrictive pool settings"
    );

    // Test case 2: Very permissive pool settings
    let mut permissive_pool = PoolState::default();
    permissive_pool.max_amount_swappable_at_oracle_price = 900_000; // 90% at oracle
    permissive_pool.acceptable_price_difference = 100_000; // 10% difference allowed

    let result = OracleBasedSwapCalculator::get_amount_to_be_swapped_at_oracle_price(
        1_000,              // source_amount_to_be_swapped
        10_000,             // swap_source_amount
        10_000,             // swap_destination_amount
        1_000_000_000 * D9, // oracle_price
        &permissive_pool,
    )
    .unwrap();

    assert_eq!(
        result, 1_000,
        "Should allow full swap with permissive settings"
    );
}

#[test]
fn test_get_amount_to_be_swapped_at_oracle_price_different_prices() {
    let mut pool_state = PoolState::default();
    pool_state.max_amount_swappable_at_oracle_price = 100_000;
    pool_state.acceptable_price_difference = 50_000;

    // Test with different oracle prices
    let prices = vec![
        500_000_000 * D9,   // 0.5
        1_000_000_000 * D9, // 1.0
        2_000_000_000 * D9, // 2.0
    ];

    for oracle_price in prices {
        let result = OracleBasedSwapCalculator::get_amount_to_be_swapped_at_oracle_price(
            1_000,        // source_amount_to_be_swapped
            10_000,       // swap_source_amount
            10_000,       // swap_destination_amount
            oracle_price, // varying oracle price
            &pool_state,
        )
        .unwrap();

        assert!(result > 0, "Should handle different oracle prices");
        assert!(result <= 1_000, "Should not exceed source amount");
    }
}

#[test]
fn oracle_based_swap_calculator_test_basic_scenarios() {
    // Test case 1: Spot price higher than oracle price by 5%
    let oracle_price = 1_000_000_000; // 1.0 in D9 format
    let spot_price = 1_050_000_000; // 1.05 in D9 format

    let result = OracleBasedSwapCalculator::get_spot_price_and_oracle_price_rate_difference(
        oracle_price,
        spot_price,
    )
    .unwrap();

    // Expected: 5% of the fee denominator
    assert_eq!(result, 50_000, "Should calculate 5% difference correctly");

    // Test case 2: Spot price equals oracle price
    let result = OracleBasedSwapCalculator::get_spot_price_and_oracle_price_rate_difference(
        oracle_price,
        oracle_price,
    )
    .unwrap();

    assert_eq!(result, 0, "Should return 0 when prices are equal");

    // Test case 3: Spot price lower than oracle price by 3%
    let spot_price = 970_000_000; // 0.97 in D9 format

    let result = OracleBasedSwapCalculator::get_spot_price_and_oracle_price_rate_difference(
        oracle_price,
        spot_price,
    )
    .unwrap();

    assert_eq!(result, 30_000, "Should calculate 3% difference correctly");

    // The execution price: the oracle price raised by the premium.
    let oracle_price = 1_000_000_000; // 1.0 in D9 format
    let result = OracleBasedSwapCalculator::get_execution_oracle_price(oracle_price, 1000).unwrap();
    assert_eq!(result, 1_001_000_000);
    let result = OracleBasedSwapCalculator::get_execution_oracle_price(oracle_price, 0).unwrap();
    assert_eq!(result, oracle_price);
    let result = OracleBasedSwapCalculator::get_execution_oracle_price(oracle_price, 100000).unwrap();
    assert_eq!(result, 1_100_000_000);
}

#[test]
fn test_different_price_scales() {
    // Test with different price scales to ensure correct percentage calculation
    let test_cases = vec![
        // (oracle_price, spot_price, expected_difference)
        (1_000_000_000, 1_100_000_000, 100_000), // 10% difference
        (500_000_000, 550_000_000, 100_000),     // 10% difference at different scale
        (2_000_000_000, 2_200_000_000, 100_000), // 10% difference at larger scale
    ];

    for (oracle_price, spot_price, expected) in test_cases {
        let result = OracleBasedSwapCalculator::get_spot_price_and_oracle_price_rate_difference(
            oracle_price,
            spot_price,
        )
        .unwrap();

        assert_eq!(
            result, expected,
            "Failed for oracle_price: {}, spot_price: {}, expected: {}, got: {}",
            oracle_price, spot_price, expected, result
        );
    }
}

#[test]
fn get_execution_oracle_price_test_basic_scenarios() {
    // Test case 1: Standard case with price premium
    let oracle_price = 1_000_000_000; // 1.0 in D9 format
    let price_premium_for_swap_at_oracle_price = 1000; // 0.1% premium

    let result = OracleBasedSwapCalculator::get_execution_oracle_price(
        oracle_price,
        price_premium_for_swap_at_oracle_price,
    )
    .unwrap();

    // 1_000_000_000 + (1_000_000_000 * 1000 / 1_000_000) = 1_001_000_000
    assert_eq!(result, 1_001_000_000);

    // Test case 2: Zero premium
    let price_premium_for_swap_at_oracle_price = 0;

    let result = OracleBasedSwapCalculator::get_execution_oracle_price(
        oracle_price,
        price_premium_for_swap_at_oracle_price,
    )
    .unwrap();

    // Should remain the same as the oracle price
    assert_eq!(result, oracle_price);

    // Test case 3: High premium
    let price_premium_for_swap_at_oracle_price = 100000; // 10% premium

    let result = OracleBasedSwapCalculator::get_execution_oracle_price(
        oracle_price,
        price_premium_for_swap_at_oracle_price,
    )
    .unwrap();

    // 1_000_000_000 + (1_000_000_000 * 100000 / 1_000_000) = 1_100_000_000
    assert_eq!(result, 1_100_000_000);
}
