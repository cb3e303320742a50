use crate::curve::calculator::{curve_swap_base_input_spec, fee_shares_spec, CurveCalculator};
use crate::curve::constant_product::{swap_base_input_without_fees_spec, ConstantProductCurve};
use crate::curve::{SwapResult, TradeDirection};
use crate::error::GammaError;
use crate::fees::dynamic_fee::{dynamic_fee_rate_spec, fee_amount_spec, DynamicFee, FeeType, MAX_FEE};
use crate::fees::FEE_RATE_DENOMINATOR_VALUE;
use crate::states::config::AmmConfig;
use crate::states::oracle::{Observation, ObservationState};
use crate::states::pool::PoolState;
use vstd::prelude::*;

verus! {

/// Oracle prices carry nine decimal places.
pub const D9: u128 = 1_000_000_000;

/// The square of [`D9`]: a price and its inverse multiply to it.
pub const D9_TIMES_D9: u128 = 1_000_000_000_000_000_000;

/// How a swap is carried out.
#[derive(Clone, Copy, Debug, PartialEq, Eq, Structural)]
pub enum SwapRoute {
    /// All of it on the constant-product curve.
    UseCurveOnly,
    /// A first part at the oracle price, the rest on the curve.
    UseOracleBlend {
        /// The oracle price of the token that comes in, in the token that
        /// goes out, scaled by [`D9`].
        oracle_price: u128,
        /// The part of the input that trades at the oracle price; not zero.
        amount_at_oracle_price: u128,
        /// The part of the input that trades on the curve.
        amount_with_invariant_curve: u128,
    },
}

/// The distance between two numbers.
pub open spec fn distance(a: int, b: int) -> int {
    if a >= b {
        a - b
    } else {
        b - a
    }
}

/// What [`OracleBasedSwapCalculator::get_amount_to_be_swapped_at_oracle_price`]
/// gives, with the two settings of the pool that it reads.
pub open spec fn amount_at_oracle_price_spec(
    source_amount_to_be_swapped: u128,
    swap_source_amount: u128,
    swap_destination_amount: u128,
    oracle_price: u128,
    max_amount_swappable_at_oracle_price: u32,
    acceptable_price_difference: u32,
) -> Result<u128, GammaError> {
    let d = FEE_RATE_DENOMINATOR_VALUE as int;
    let limit = d - acceptable_price_difference;
    let boundary_price = (oracle_price * limit) / d;
    if swap_source_amount * max_amount_swappable_at_oracle_price > u128::MAX || limit < 0 || oracle_price
        * limit > u128::MAX || boundary_price * swap_source_amount > u128::MAX || swap_destination_amount * D9
        > u128::MAX || oracle_price + boundary_price > u128::MAX || oracle_price + boundary_price == 0 {
        Err(GammaError::MathOverflow)
    } else {
        let by_share = (swap_source_amount * max_amount_swappable_at_oracle_price) / d;
        let by_price = distance(boundary_price * swap_source_amount, swap_destination_amount * D9) / (
        oracle_price + boundary_price);
        let cap = if by_share <= by_price {
            by_share
        } else {
            by_price
        };
        if cap <= source_amount_to_be_swapped {
            Ok(cap as u128)
        } else {
            Ok(source_amount_to_be_swapped)
        }
    }
}

/// What
/// [`OracleBasedSwapCalculator::get_spot_price_and_oracle_price_rate_difference`]
/// gives.
pub open spec fn rate_difference_spec(oracle_price: u128, spot_price: u128) -> Result<u128, GammaError> {
    let gap = distance(spot_price as int, oracle_price as int);
    if gap * FEE_RATE_DENOMINATOR_VALUE > u128::MAX || oracle_price == 0 {
        Err(GammaError::MathOverflow)
    } else {
        Ok(((gap * FEE_RATE_DENOMINATOR_VALUE) / (oracle_price as int)) as u128)
    }
}

/// What [`OracleBasedSwapCalculator::get_execution_oracle_price`] gives.
pub open spec fn execution_oracle_price_spec(oracle_price: u128, price_premium: u128) -> Result<
    u128,
    GammaError,
> {
    let d = FEE_RATE_DENOMINATOR_VALUE as int;
    if oracle_price * price_premium > u128::MAX || oracle_price + (oracle_price * price_premium) / d
        > u128::MAX {
        Err(GammaError::MathOverflow)
    } else {
        Ok((oracle_price + (oracle_price * price_premium) / d) as u128)
    }
}

/// Whether the pool has no oracle price that can be used at
/// `block_timestamp`: none was ever given, it is zero, it is dated later than
/// now, or it is older than the pool allows.
pub open spec fn oracle_price_is_unusable(pool_state: PoolState, block_timestamp: u64) -> bool {
    ||| block_timestamp < pool_state.oracle_price_updated_at
    ||| block_timestamp - pool_state.oracle_price_updated_at > pool_state.max_oracle_price_update_time_diff
    ||| pool_state.oracle_price_updated_at == 0
    ||| pool_state.oracle_price_token_0_by_token_1 == 0
}

/// The direction of a swap whose input side has the balance given.
pub open spec fn direction_of(swap_source_amount: u128, pool_state: PoolState) -> TradeDirection {
    if swap_source_amount == pool_state.token_0_vault_amount as u128 {
        TradeDirection::ZeroForOne
    } else {
        TradeDirection::OneForZero
    }
}

/// The oracle price that a swap in the direction given is held against. The
/// pool stores the price for a swap that takes token 1 in; for a swap that
/// takes token 0 in it is inverted, [`D9_TIMES_D9`] divided by it.
pub open spec fn oracle_price_for(direction: TradeDirection, pool_state: PoolState) -> int {
    match direction {
        TradeDirection::OneForZero => pool_state.oracle_price_token_0_by_token_1 as int,
        TradeDirection::ZeroForOne => D9_TIMES_D9 as int / (
        pool_state.oracle_price_token_0_by_token_1 as int),
    }
}

/// What [`OracleBasedSwapCalculator::decide_route`] gives.
pub open spec fn route_spec(
    source_amount_to_be_swapped: u128,
    swap_source_amount: u128,
    swap_destination_amount: u128,
    pool_state: PoolState,
    block_timestamp: u64,
) -> Result<SwapRoute, GammaError> {
    if oracle_price_is_unusable(pool_state, block_timestamp) {
        Ok(SwapRoute::UseCurveOnly)
    } else if swap_destination_amount * D9 > u128::MAX || swap_source_amount == 0 {
        Err(GammaError::MathOverflow)
    } else {
        let spot_price = ((swap_destination_amount * D9) / (swap_source_amount as int)) as u128;
        let oracle_price = oracle_price_for(direction_of(swap_source_amount, pool_state), pool_state) as u128;
        match rate_difference_spec(oracle_price, spot_price) {
            Err(e) => Err(e),
            Ok(rate_difference) => if rate_difference > pool_state.acceptable_price_difference {
                Ok(SwapRoute::UseCurveOnly)
            } else {
                match amount_at_oracle_price_spec(
                    source_amount_to_be_swapped,
                    swap_source_amount,
                    swap_destination_amount,
                    oracle_price,
                    pool_state.max_amount_swappable_at_oracle_price,
                    pool_state.acceptable_price_difference,
                ) {
                    Err(e) => Err(e),
                    Ok(amount) => if amount == 0 {
                        Ok(SwapRoute::UseCurveOnly)
                    } else {
                        Ok(
                            SwapRoute::UseOracleBlend {
                                oracle_price,
                                amount_at_oracle_price: amount,
                                amount_with_invariant_curve: (source_amount_to_be_swapped - amount) as u128,
                            },
                        )
                    },
                }
            },
        }
    }
}

/// The larger of two rates.
pub open spec fn larger_rate(a: u64, b: u64) -> u64 {
    if a >= b {
        a
    } else {
        b
    }
}

/// What both parts of a blended swap give together, before the fee is split.
pub struct BlendAmounts {
    /// The fees of the two parts together.
    pub trade_fee_charged: u128,
    /// The fee as parts of the whole input.
    pub trade_fee_rate: u128,
    /// The outputs of the two parts together.
    pub destination_amount_swapped: u128,
    /// The output of the part that trades at the oracle price.
    pub oracle_output: u128,
}

/// The amounts of a blended swap: nothing where a step overflows.
///
/// The oracle part pays its fee at the larger of the dynamic rate and the
/// least rate that the pool asks at the oracle price, and what is left of it
/// trades at the oracle price raised by the premium. The curve part pays the
/// dynamic rate, and what is left of it trades on the curve, on the balances
/// as the oracle part has left them: the input side with the oracle part
/// added, the output side less what the oracle part paid out.
pub open spec fn blend_amounts_spec(
    source_amount_to_be_swapped: u128,
    swap_source_amount: u128,
    swap_destination_amount: u128,
    oracle_price: u128,
    amount_at_oracle_price: u128,
    min_trade_rate_at_oracle_price: u32,
    price_premium_for_swap_at_oracle_price: u32,
    dynamic_fee_rate: u64,
) -> Option<BlendAmounts> {
    let d = FEE_RATE_DENOMINATOR_VALUE as int;
    let oracle_rate = larger_rate(dynamic_fee_rate, min_trade_rate_at_oracle_price as u64);
    if amount_at_oracle_price > source_amount_to_be_swapped {
        None
    } else {
        let amount_with_curve = (source_amount_to_be_swapped - amount_at_oracle_price) as u128;
        match (
            fee_amount_spec(amount_at_oracle_price, oracle_rate),
            execution_oracle_price_spec(oracle_price, price_premium_for_swap_at_oracle_price as u128),
            fee_amount_spec(amount_with_curve, dynamic_fee_rate),
        ) {
            (Ok(oracle_fee), Ok(execution_price), Ok(curve_fee)) => {
                if oracle_fee > amount_at_oracle_price || execution_price * (amount_at_oracle_price
                    - oracle_fee) > u128::MAX {
                    None
                } else {
                    let output_tokens = (execution_price * (amount_at_oracle_price - oracle_fee)) / (D9 as int);
                    if swap_source_amount + amount_at_oracle_price > u128::MAX || output_tokens
                        > swap_destination_amount || curve_fee > amount_with_curve || curve_fee + oracle_fee
                        > u128::MAX || (curve_fee + oracle_fee) * d > u128::MAX || source_amount_to_be_swapped
                        == 0 {
                        None
                    } else {
                        match swap_base_input_without_fees_spec(
                            (amount_with_curve - curve_fee) as u128,
                            (swap_source_amount + amount_at_oracle_price) as u128,
                            (swap_destination_amount - output_tokens) as u128,
                        ) {
                            Err(_) => None,
                            Ok(curve_output) => if curve_output + output_tokens > u128::MAX {
                                None
                            } else {
                                Some(
                                    BlendAmounts {
                                        trade_fee_charged: (curve_fee + oracle_fee) as u128,
                                        trade_fee_rate: (((curve_fee + oracle_fee) * d) / (
                                        source_amount_to_be_swapped as int)) as u128,
                                        destination_amount_swapped: (curve_output + output_tokens) as u128,
                                        oracle_output: output_tokens as u128,
                                    },
                                )
                            },
                        }
                    }
                }
            },
            _ => None,
        }
    }
}

/// What a blended swap gives at a given dynamic fee rate.
pub open spec fn blend_at_rate_spec(
    source_amount_to_be_swapped: u128,
    swap_source_amount: u128,
    swap_destination_amount: u128,
    oracle_price: u128,
    amount_at_oracle_price: u128,
    min_trade_rate_at_oracle_price: u32,
    price_premium_for_swap_at_oracle_price: u32,
    protocol_fee_rate: u64,
    fund_fee_rate: u64,
    dynamic_fee_rate: u64,
) -> Result<SwapResult, GammaError> {
    match blend_amounts_spec(
        source_amount_to_be_swapped,
        swap_source_amount,
        swap_destination_amount,
        oracle_price,
        amount_at_oracle_price,
        min_trade_rate_at_oracle_price,
        price_premium_for_swap_at_oracle_price,
        dynamic_fee_rate,
    ) {
        None => Err(GammaError::MathOverflow),
        Some(amounts) => match fee_shares_spec(amounts.trade_fee_charged, protocol_fee_rate, fund_fee_rate) {
            Err(e) => Err(e),
            Ok((protocol_fee, fund_fee)) => if swap_source_amount + source_amount_to_be_swapped > u128::MAX
                || amounts.destination_amount_swapped > swap_destination_amount {
                Err(GammaError::MathOverflow)
            } else {
                Ok(
                    SwapResult {
                        new_swap_source_amount: (swap_source_amount + source_amount_to_be_swapped) as u128,
                        new_swap_destination_amount: (swap_destination_amount
                            - amounts.destination_amount_swapped) as u128,
                        source_amount_swapped: source_amount_to_be_swapped,
                        destination_amount_swapped: amounts.destination_amount_swapped,
                        dynamic_fee: amounts.trade_fee_charged,
                        protocol_fee,
                        fund_fee,
                        dynamic_fee_rate: amounts.trade_fee_rate as u64,
                    },
                )
            },
        },
    }
}

/// What [`OracleBasedSwapCalculator::swap_base_input`] gives.
pub open spec fn oracle_swap_base_input_spec(
    source_amount_to_be_swapped: u128,
    swap_source_amount: u128,
    swap_destination_amount: u128,
    amm_config: AmmConfig,
    pool_state: PoolState,
    block_timestamp: u64,
    observations: Seq<Observation>,
) -> Result<SwapResult, GammaError> {
    match route_spec(
        source_amount_to_be_swapped,
        swap_source_amount,
        swap_destination_amount,
        pool_state,
        block_timestamp,
    ) {
        Err(e) => Err(e),
        Ok(SwapRoute::UseCurveOnly) => curve_swap_base_input_spec(
            source_amount_to_be_swapped,
            swap_source_amount,
            swap_destination_amount,
            amm_config,
            block_timestamp,
            observations,
        ),
        Ok(SwapRoute::UseOracleBlend { oracle_price, amount_at_oracle_price, amount_with_invariant_curve }) => match dynamic_fee_rate_spec(
            observations,
            block_timestamp,
            amm_config.trade_fee_rate,
        ) {
            Err(e) => Err(e),
            Ok(rate) => blend_at_rate_spec(
                source_amount_to_be_swapped,
                swap_source_amount,
                swap_destination_amount,
                oracle_price,
                amount_at_oracle_price,
                pool_state.min_trade_rate_at_oracle_price,
                pool_state.price_premium_for_swap_at_oracle_price,
                amm_config.protocol_fee_rate,
                amm_config.fund_fee_rate,
                rate,
            ),
        },
    }
}

/// Swaps of which a first part trades at the price of an oracle.
pub struct OracleBasedSwapCalculator {}

impl OracleBasedSwapCalculator {
    /// How much of `source_amount_to_be_swapped` can trade at the oracle
    /// price.
    ///
    /// It is the least of three: the share
    /// `max_amount_swappable_at_oracle_price` of the input balance; the
    /// amount `|Z * X - Y| / (Z + P)` after which the pool's own price would
    /// be `acceptable_price_difference` away from the oracle price `P`, where
    /// `Z` is `P` lowered by that difference and `X`, `Y` are the balances;
    /// and the input itself.
    pub fn get_amount_to_be_swapped_at_oracle_price(
        source_amount_to_be_swapped: u128,
        swap_source_amount: u128,
        swap_destination_amount: u128,
        oracle_price: u128,
        pool_state: &PoolState,
    ) -> (r: Result<u128, GammaError>)
        ensures
            r == amount_at_oracle_price_spec(
                source_amount_to_be_swapped,
                swap_source_amount,
                swap_destination_amount,
                oracle_price,
                pool_state.max_amount_swappable_at_oracle_price,
                pool_state.acceptable_price_difference,
            ),
            r.is_ok() ==> r.unwrap() <= source_amount_to_be_swapped && r.unwrap() <= (swap_source_amount
                * pool_state.max_amount_swappable_at_oracle_price) / (FEE_RATE_DENOMINATOR_VALUE as int),
    {
        let by_share = match swap_source_amount.checked_mul(
            pool_state.max_amount_swappable_at_oracle_price as u128,
        ) {
            Some(v) => v / (FEE_RATE_DENOMINATOR_VALUE as u128),
            None => { return Err(GammaError::MathOverflow); },
        };
        let price_difference_limit = match FEE_RATE_DENOMINATOR_VALUE.checked_sub(
            pool_state.acceptable_price_difference as u64,
        ) {
            Some(v) => v,
            None => { return Err(GammaError::MathOverflow); },
        };
        let boundary_price = match oracle_price.checked_mul(price_difference_limit as u128) {
            Some(v) => v / (FEE_RATE_DENOMINATOR_VALUE as u128),
            None => { return Err(GammaError::MathOverflow); },
        };
        let z_times_x = match boundary_price.checked_mul(swap_source_amount) {
            Some(v) => v,
            None => { return Err(GammaError::MathOverflow); },
        };
        let y_scaled_by_d9 = match swap_destination_amount.checked_mul(D9) {
            Some(v) => v,
            None => { return Err(GammaError::MathOverflow); },
        };
        let numerator = if z_times_x >= y_scaled_by_d9 {
            z_times_x - y_scaled_by_d9
        } else {
            y_scaled_by_d9 - z_times_x
        };
        let denominator = match oracle_price.checked_add(boundary_price) {
            Some(v) => v,
            None => { return Err(GammaError::MathOverflow); },
        };
        let by_price = match numerator.checked_div(denominator) {
            Some(v) => v,
            None => { return Err(GammaError::MathOverflow); },
        };
        let cap = if by_share <= by_price {
            by_share
        } else {
            by_price
        };
        if cap <= source_amount_to_be_swapped {
            Ok(cap)
        } else {
            Ok(source_amount_to_be_swapped)
        }
    }

    /// How far the pool's own price is from the oracle price, in parts of the
    /// fee denominator of the oracle price, rounded down. An oracle price of
    /// zero is `MathOverflow`.
    pub fn get_spot_price_and_oracle_price_rate_difference(oracle_price: u128, spot_price: u128) -> (r: Result<
        u128,
        GammaError,
    >)
        ensures
            r == rate_difference_spec(oracle_price, spot_price),
    {
        let gap = if spot_price >= oracle_price {
            spot_price - oracle_price
        } else {
            oracle_price - spot_price
        };
        let scaled = match gap.checked_mul(FEE_RATE_DENOMINATOR_VALUE as u128) {
            Some(v) => v,
            None => { return Err(GammaError::MathOverflow); },
        };
        match scaled.checked_div(oracle_price) {
            Some(v) => Ok(v),
            None => Err(GammaError::MathOverflow),
        }
    }

    /// The price at which the oracle part trades: the oracle price raised by
    /// `price_premium_for_swap_at_oracle_price` parts of the fee denominator.
    pub fn get_execution_oracle_price(oracle_price: u128, price_premium_for_swap_at_oracle_price: u128) -> (r: Result<
        u128,
        GammaError,
    >)
        ensures
            r == execution_oracle_price_spec(oracle_price, price_premium_for_swap_at_oracle_price),
    {
        let premium = match oracle_price.checked_mul(price_premium_for_swap_at_oracle_price) {
            Some(v) => v / (FEE_RATE_DENOMINATOR_VALUE as u128),
            None => { return Err(GammaError::MathOverflow); },
        };
        match oracle_price.checked_add(premium) {
            Some(v) => Ok(v),
            None => Err(GammaError::MathOverflow),
        }
    }

    /// Decides, before anything is priced, whether a swap trades in part at
    /// the oracle price.
    ///
    /// It goes to the curve alone where the pool has no usable oracle price,
    /// where the pool's own price is further from the oracle price than
    /// `acceptable_price_difference`, and where nothing of the input can
    /// trade at the oracle price.
    pub fn decide_route(
        source_amount_to_be_swapped: u128,
        swap_source_amount: u128,
        swap_destination_amount: u128,
        pool_state: &PoolState,
        block_timestamp: u64,
    ) -> (r: Result<SwapRoute, GammaError>)
        ensures
            r == route_spec(
                source_amount_to_be_swapped,
                swap_source_amount,
                swap_destination_amount,
                *pool_state,
                block_timestamp,
            ),
            oracle_price_is_unusable(*pool_state, block_timestamp) ==> r == Ok::<SwapRoute, GammaError>(
                SwapRoute::UseCurveOnly,
            ),
            match r {
                Ok(SwapRoute::UseOracleBlend { oracle_price, amount_at_oracle_price, amount_with_invariant_curve }) => {
                    &&& 0 < amount_at_oracle_price <= source_amount_to_be_swapped
                    &&& amount_at_oracle_price + amount_with_invariant_curve == source_amount_to_be_swapped
                    &&& amount_at_oracle_price <= (swap_source_amount
                        * pool_state.max_amount_swappable_at_oracle_price) / (
                    FEE_RATE_DENOMINATOR_VALUE as int)
                },
                _ => true,
            },
    {
        let oracle_price_updated_at = pool_state.oracle_price_updated_at;
        let age = block_timestamp.saturating_sub(oracle_price_updated_at);
        if age > pool_state.max_oracle_price_update_time_diff as u64 || block_timestamp
            < oracle_price_updated_at || oracle_price_updated_at == 0
            || pool_state.oracle_price_token_0_by_token_1 == 0 {
            return Ok(SwapRoute::UseCurveOnly);
        }
        let vault_amounts = match pool_state.vault_amount_without_fee() {
            Ok(v) => v,
            Err(e) => { return Err(e); },
        };
        let trade_direction = if swap_source_amount == vault_amounts.0 as u128 {
            TradeDirection::ZeroForOne
        } else {
            TradeDirection::OneForZero
        };
        let spot_price = match swap_destination_amount.checked_mul(D9) {
            Some(v) => match v.checked_div(swap_source_amount) {
                Some(q) => q,
                None => { return Err(GammaError::MathOverflow); },
            },
            None => { return Err(GammaError::MathOverflow); },
        };
        let oracle_price = match trade_direction {
            TradeDirection::OneForZero => pool_state.oracle_price_token_0_by_token_1,
            TradeDirection::ZeroForOne => D9_TIMES_D9 / pool_state.oracle_price_token_0_by_token_1,
        };
        let rate_difference = match Self::get_spot_price_and_oracle_price_rate_difference(
            oracle_price,
            spot_price,
        ) {
            Ok(v) => v,
            Err(e) => { return Err(e); },
        };
        if rate_difference > pool_state.acceptable_price_difference as u128 {
            return Ok(SwapRoute::UseCurveOnly);
        }
        let amount_at_oracle_price = match Self::get_amount_to_be_swapped_at_oracle_price(
            source_amount_to_be_swapped,
            swap_source_amount,
            swap_destination_amount,
            oracle_price,
            pool_state,
        ) {
            Ok(v) => v,
            Err(e) => { return Err(e); },
        };
        if amount_at_oracle_price == 0 {
            return Ok(SwapRoute::UseCurveOnly);
        }
        Ok(
            SwapRoute::UseOracleBlend {
                oracle_price,
                amount_at_oracle_price,
                amount_with_invariant_curve: source_amount_to_be_swapped - amount_at_oracle_price,
            },
        )
    }

    /// A swap of which `amount_at_oracle_price` trades at the oracle price
    /// and the rest on the curve, at the dynamic fee rate given.
    ///
    /// The fee rate reported is the whole fee as parts of the whole input.
    /// The part on the curve never lowers the product of the balances as the
    /// oracle part has left them.
    pub fn swap_with_oracle_blend_at_rate(
        source_amount_to_be_swapped: u128,
        swap_source_amount: u128,
        swap_destination_amount: u128,
        oracle_price: u128,
        amount_at_oracle_price: u128,
        min_trade_rate_at_oracle_price: u32,
        price_premium_for_swap_at_oracle_price: u32,
        protocol_fee_rate: u64,
        fund_fee_rate: u64,
        dynamic_fee_rate: u64,
    ) -> (r: Result<SwapResult, GammaError>)
        ensures
            r == blend_at_rate_spec(
                source_amount_to_be_swapped,
                swap_source_amount,
                swap_destination_amount,
                oracle_price,
                amount_at_oracle_price,
                min_trade_rate_at_oracle_price,
                price_premium_for_swap_at_oracle_price,
                protocol_fee_rate,
                fund_fee_rate,
                dynamic_fee_rate,
            ),
            r.is_ok() ==> r.unwrap().dynamic_fee <= source_amount_to_be_swapped,
            r.is_ok() ==> r.unwrap().dynamic_fee_rate <= FEE_RATE_DENOMINATOR_VALUE,
            r.is_ok() ==> r.unwrap().source_amount_swapped == source_amount_to_be_swapped,
            r.is_ok() ==> {
                let oracle_output = blend_amounts_spec(
                    source_amount_to_be_swapped,
                    swap_source_amount,
                    swap_destination_amount,
                    oracle_price,
                    amount_at_oracle_price,
                    min_trade_rate_at_oracle_price,
                    price_premium_for_swap_at_oracle_price,
                    dynamic_fee_rate,
                ).unwrap().oracle_output;
                r.unwrap().new_swap_source_amount * r.unwrap().new_swap_destination_amount >= (
                swap_source_amount + amount_at_oracle_price) * (swap_destination_amount - oracle_output)
            },
            r.is_ok() && protocol_fee_rate + fund_fee_rate <= FEE_RATE_DENOMINATOR_VALUE
                ==> r.unwrap().protocol_fee + r.unwrap().fund_fee <= r.unwrap().dynamic_fee,
    {
        let amount_with_curve = match source_amount_to_be_swapped.checked_sub(amount_at_oracle_price) {
            Some(v) => v,
            None => { return Err(GammaError::MathOverflow); },
        };
        let oracle_rate = if dynamic_fee_rate >= min_trade_rate_at_oracle_price as u64 {
            dynamic_fee_rate
        } else {
            min_trade_rate_at_oracle_price as u64
        };
        let oracle_fee = match DynamicFee::fee_at_rate(amount_at_oracle_price, oracle_rate) {
            Ok(v) => v,
            Err(_) => { return Err(GammaError::MathOverflow); },
        };
        let oracle_amount_after_fees = match amount_at_oracle_price.checked_sub(oracle_fee) {
            Some(v) => v,
            None => { return Err(GammaError::MathOverflow); },
        };
        let execution_price = match Self::get_execution_oracle_price(
            oracle_price,
            price_premium_for_swap_at_oracle_price as u128,
        ) {
            Ok(v) => v,
            Err(_) => { return Err(GammaError::MathOverflow); },
        };
        let output_tokens = match execution_price.checked_mul(oracle_amount_after_fees) {
            Some(v) => v / D9,
            None => { return Err(GammaError::MathOverflow); },
        };
        let curve_source_amount = match swap_source_amount.checked_add(amount_at_oracle_price) {
            Some(v) => v,
            None => { return Err(GammaError::MathOverflow); },
        };
        let curve_destination_amount = match swap_destination_amount.checked_sub(output_tokens) {
            Some(v) => v,
            None => { return Err(GammaError::MathOverflow); },
        };
        let curve_fee = match DynamicFee::fee_at_rate(amount_with_curve, dynamic_fee_rate) {
            Ok(v) => v,
            Err(_) => { return Err(GammaError::MathOverflow); },
        };
        let curve_amount_after_fees = match amount_with_curve.checked_sub(curve_fee) {
            Some(v) => v,
            None => { return Err(GammaError::MathOverflow); },
        };
        let trade_fee_charged = match curve_fee.checked_add(oracle_fee) {
            Some(v) => v,
            None => { return Err(GammaError::MathOverflow); },
        };
        let trade_fee_rate = match trade_fee_charged.checked_mul(FEE_RATE_DENOMINATOR_VALUE as u128) {
            Some(v) => match v.checked_div(source_amount_to_be_swapped) {
                Some(q) => q,
                None => { return Err(GammaError::MathOverflow); },
            },
            None => { return Err(GammaError::MathOverflow); },
        };
        let curve_output = match ConstantProductCurve::swap_base_input_without_fees(
            curve_amount_after_fees,
            curve_source_amount,
            curve_destination_amount,
        ) {
            Ok(v) => v,
            Err(_) => { return Err(GammaError::MathOverflow); },
        };
        let destination_amount_swapped = match curve_output.checked_add(output_tokens) {
            Some(v) => v,
            None => { return Err(GammaError::MathOverflow); },
        };
        let (protocol_fee, fund_fee) = match CurveCalculator::fee_shares(
            trade_fee_charged,
            protocol_fee_rate,
            fund_fee_rate,
        ) {
            Ok(v) => v,
            Err(e) => { return Err(e); },
        };
        let new_swap_source_amount = match swap_source_amount.checked_add(source_amount_to_be_swapped) {
            Some(v) => v,
            None => { return Err(GammaError::MathOverflow); },
        };
        let new_swap_destination_amount = match swap_destination_amount.checked_sub(
            destination_amount_swapped,
        ) {
            Some(v) => v,
            None => { return Err(GammaError::MathOverflow); },
        };
        proof {
            CurveCalculator::lemma_product_kept(
                amount_with_curve,
                curve_amount_after_fees,
                curve_source_amount,
                curve_destination_amount,
            );
        }
        assert(trade_fee_rate <= FEE_RATE_DENOMINATOR_VALUE) by (nonlinear_arith)
            requires
                trade_fee_rate == (trade_fee_charged * FEE_RATE_DENOMINATOR_VALUE) / (
                source_amount_to_be_swapped as int),
                trade_fee_charged <= source_amount_to_be_swapped,
                source_amount_to_be_swapped > 0,
        ;
        Ok(
            SwapResult {
                new_swap_source_amount,
                new_swap_destination_amount,
                source_amount_swapped: source_amount_to_be_swapped,
                destination_amount_swapped,
                dynamic_fee: trade_fee_charged,
                protocol_fee,
                fund_fee,
                dynamic_fee_rate: trade_fee_rate as u64,
            },
        )
    }

    /// A swap whose route is the curve alone is the swap of the curve
    /// calculator. That is the route in three cases: the pool has no usable
    /// oracle price; the pool's own price is too far from the oracle price;
    /// nothing of the input can trade at the oracle price.
    pub proof fn lemma_fallback_is_curve_swap(
        source_amount_to_be_swapped: u128,
        swap_source_amount: u128,
        swap_destination_amount: u128,
        amm_config: AmmConfig,
        pool_state: PoolState,
        block_timestamp: u64,
        observations: Seq<Observation>,
    )
        ensures
            route_spec(
                source_amount_to_be_swapped,
                swap_source_amount,
                swap_destination_amount,
                pool_state,
                block_timestamp,
            ) == Ok::<SwapRoute, GammaError>(SwapRoute::UseCurveOnly) ==> oracle_swap_base_input_spec(
                source_amount_to_be_swapped,
                swap_source_amount,
                swap_destination_amount,
                amm_config,
                pool_state,
                block_timestamp,
                observations,
            ) == curve_swap_base_input_spec(
                source_amount_to_be_swapped,
                swap_source_amount,
                swap_destination_amount,
                amm_config,
                block_timestamp,
                observations,
            ),
            oracle_price_is_unusable(pool_state, block_timestamp) ==> route_spec(
                source_amount_to_be_swapped,
                swap_source_amount,
                swap_destination_amount,
                pool_state,
                block_timestamp,
            ) == Ok::<SwapRoute, GammaError>(SwapRoute::UseCurveOnly),
            ({
                let spot_price = ((swap_destination_amount * D9) / (swap_source_amount as int)) as u128;
                let oracle_price = oracle_price_for(
                    direction_of(swap_source_amount, pool_state),
                    pool_state,
                ) as u128;
                let difference = rate_difference_spec(oracle_price, spot_price);
                let amount = amount_at_oracle_price_spec(
                    source_amount_to_be_swapped,
                    swap_source_amount,
                    swap_destination_amount,
                    oracle_price,
                    pool_state.max_amount_swappable_at_oracle_price,
                    pool_state.acceptable_price_difference,
                );
                &&& !oracle_price_is_unusable(pool_state, block_timestamp)
                &&& swap_destination_amount * D9 <= u128::MAX
                &&& swap_source_amount > 0
                &&& difference.is_ok()
                &&& (difference.unwrap() > pool_state.acceptable_price_difference || amount == Ok::<
                    u128,
                    GammaError,
                >(0))
            }) ==> route_spec(
                source_amount_to_be_swapped,
                swap_source_amount,
                swap_destination_amount,
                pool_state,
                block_timestamp,
            ) == Ok::<SwapRoute, GammaError>(SwapRoute::UseCurveOnly),
    {
    }

    /// A swap of `source_amount_to_be_swapped`, in part at the oracle price
    /// where [`OracleBasedSwapCalculator::decide_route`] allows it.
    ///
    /// Where the route is the curve alone, the result is that of
    /// [`CurveCalculator::swap_base_input`] on the same arguments: the
    /// product of the balances does not fall, and the rate is within
    /// [`MAX_FEE`] where the base rate is.
    pub fn swap_base_input(
        source_amount_to_be_swapped: u128,
        swap_source_amount: u128,
        swap_destination_amount: u128,
        amm_config: &AmmConfig,
        pool_state: &PoolState,
        block_timestamp: u64,
        observation_state: &ObservationState,
        is_invoked_by_signed_segmenter: bool,
    ) -> (r: Result<SwapResult, GammaError>)
        ensures
            r == oracle_swap_base_input_spec(
                source_amount_to_be_swapped,
                swap_source_amount,
                swap_destination_amount,
                *amm_config,
                *pool_state,
                block_timestamp,
                observation_state.observations@,
            ),
            route_spec(
                source_amount_to_be_swapped,
                swap_source_amount,
                swap_destination_amount,
                *pool_state,
                block_timestamp,
            ) == Ok::<SwapRoute, GammaError>(SwapRoute::UseCurveOnly) ==> r == curve_swap_base_input_spec(
                source_amount_to_be_swapped,
                swap_source_amount,
                swap_destination_amount,
                *amm_config,
                block_timestamp,
                observation_state.observations@,
            ),
            r.is_ok() ==> r.unwrap().source_amount_swapped == source_amount_to_be_swapped,
            r.is_ok() && route_spec(
                source_amount_to_be_swapped,
                swap_source_amount,
                swap_destination_amount,
                *pool_state,
                block_timestamp,
            ) == Ok::<SwapRoute, GammaError>(SwapRoute::UseCurveOnly) ==> {
                &&& r.unwrap().new_swap_source_amount * r.unwrap().new_swap_destination_amount
                    >= swap_source_amount * swap_destination_amount
                &&& amm_config.trade_fee_rate <= MAX_FEE ==> r.unwrap().dynamic_fee_rate <= MAX_FEE
            },
            r.is_ok() && amm_config.protocol_fee_rate + amm_config.fund_fee_rate
                <= FEE_RATE_DENOMINATOR_VALUE ==> r.unwrap().protocol_fee + r.unwrap().fund_fee
                <= r.unwrap().dynamic_fee,
    {
        let route = match Self::decide_route(
            source_amount_to_be_swapped,
            swap_source_amount,
            swap_destination_amount,
            pool_state,
            block_timestamp,
        ) {
            Ok(v) => v,
            Err(e) => { return Err(e); },
        };
        match route {
            SwapRoute::UseCurveOnly => CurveCalculator::swap_base_input(
                source_amount_to_be_swapped,
                swap_source_amount,
                swap_destination_amount,
                amm_config,
                pool_state,
                block_timestamp,
                observation_state,
                is_invoked_by_signed_segmenter,
            ),
            SwapRoute::UseOracleBlend { oracle_price, amount_at_oracle_price, amount_with_invariant_curve } => {
                let dynamic_fee_rate = match DynamicFee::dynamic_fee_rate(
                    block_timestamp,
                    observation_state,
                    FeeType::Volatility,
                    amm_config.trade_fee_rate,
                    pool_state,
                    is_invoked_by_signed_segmenter,
                ) {
                    Ok(v) => v,
                    Err(e) => { return Err(e); },
                };
                Self::swap_with_oracle_blend_at_rate(
                    source_amount_to_be_swapped,
                    swap_source_amount,
                    swap_destination_amount,
                    oracle_price,
                    amount_at_oracle_price,
                    pool_state.min_trade_rate_at_oracle_price,
                    pool_state.price_premium_for_swap_at_oracle_price,
                    amm_config.protocol_fee_rate,
                    amm_config.fund_fee_rate,
                    dynamic_fee_rate,
                )
            },
        }
    }
}

} // verus!
