use crate::curve::constant_product::{
    lp_tokens_to_trading_tokens_spec, swap_base_input_without_fees_spec, swap_base_output_without_fees_spec,
    ConstantProductCurve,
};
use crate::curve::{RoundDirection, SwapResult, TradeDirection, TradingTokenResult};
use crate::error::GammaError;
use crate::fees::dynamic_fee::{
    dynamic_fee_rate_spec, fee_amount_spec, pre_fee_amount_spec, volatile_fee_spec, DynamicFee, FeeType,
    MAX_FEE,
};
use crate::fees::static_fees::StaticFee;
use crate::fees::FEE_RATE_DENOMINATOR_VALUE;
use crate::states::config::AmmConfig;
use crate::states::oracle::{Observation, ObservationState};
use crate::states::pool::PoolState;
use vstd::prelude::*;

verus! {

/// The split of a trade fee into the shares of the protocol and the fund,
/// `InvalidFee` where a share cannot be computed.
pub open spec fn fee_shares_spec(fee: u128, protocol_fee_rate: u64, fund_fee_rate: u64) -> Result<
    (u128, u128),
    GammaError,
> {
    if fee * protocol_fee_rate > u128::MAX || fee * fund_fee_rate > u128::MAX {
        Err(GammaError::InvalidFee)
    } else {
        Ok(
            (
                StaticFee::spec_share(fee, protocol_fee_rate) as u128,
                StaticFee::spec_share(fee, fund_fee_rate) as u128,
            ),
        )
    }
}

/// What a swap of a given input does at a given trade fee rate.
///
/// The fee is taken from the input, rounded up; the rest is swapped on the
/// curve; the whole input joins the balance of its token.
pub open spec fn swap_base_input_at_rate_spec(
    source_amount_to_be_swapped: u128,
    swap_source_amount: u128,
    swap_destination_amount: u128,
    protocol_fee_rate: u64,
    fund_fee_rate: u64,
    dynamic_fee_rate: u64,
) -> Result<SwapResult, GammaError> {
    match fee_amount_spec(source_amount_to_be_swapped, dynamic_fee_rate) {
        Err(e) => Err(e),
        Ok(fee) => match fee_shares_spec(fee, protocol_fee_rate, fund_fee_rate) {
            Err(e) => Err(e),
            Ok((protocol_fee, fund_fee)) => if fee > source_amount_to_be_swapped {
                Err(GammaError::MathOverflow)
            } else {
                match swap_base_input_without_fees_spec(
                    (source_amount_to_be_swapped - fee) as u128,
                    swap_source_amount,
                    swap_destination_amount,
                ) {
                    Err(e) => Err(e),
                    Ok(out) => if swap_source_amount + source_amount_to_be_swapped > u128::MAX {
                        Err(GammaError::MathOverflow)
                    } else {
                        Ok(
                            SwapResult {
                                new_swap_source_amount: (swap_source_amount
                                    + source_amount_to_be_swapped) as u128,
                                new_swap_destination_amount: (swap_destination_amount - out) as u128,
                                source_amount_swapped: source_amount_to_be_swapped,
                                destination_amount_swapped: out,
                                dynamic_fee: fee,
                                protocol_fee,
                                fund_fee,
                                dynamic_fee_rate,
                            },
                        )
                    },
                }
            },
        },
    }
}

/// What a swap for a given output does at a given trade fee rate.
///
/// The input that the curve asks for is raised so that the fee, taken from
/// it, leaves what the curve asks for.
pub open spec fn swap_base_output_at_rate_spec(
    destination_amount_to_be_swapped: u128,
    swap_source_amount: u128,
    swap_destination_amount: u128,
    protocol_fee_rate: u64,
    fund_fee_rate: u64,
    dynamic_fee_rate: u64,
) -> Result<SwapResult, GammaError> {
    match swap_base_output_without_fees_spec(
        destination_amount_to_be_swapped,
        swap_source_amount,
        swap_destination_amount,
    ) {
        Err(e) => Err(e),
        Ok(after_fee) => match pre_fee_amount_spec(after_fee, dynamic_fee_rate) {
            Err(e) => Err(e),
            Ok(source_amount) => match fee_amount_spec(source_amount, dynamic_fee_rate) {
                Err(e) => Err(e),
                Ok(fee) => match fee_shares_spec(fee, protocol_fee_rate, fund_fee_rate) {
                    Err(e) => Err(e),
                    Ok((protocol_fee, fund_fee)) => if swap_source_amount + source_amount > u128::MAX {
                        Err(GammaError::MathOverflow)
                    } else {
                        Ok(
                            SwapResult {
                                new_swap_source_amount: (swap_source_amount + source_amount) as u128,
                                new_swap_destination_amount: (swap_destination_amount
                                    - destination_amount_to_be_swapped) as u128,
                                source_amount_swapped: source_amount,
                                destination_amount_swapped: destination_amount_to_be_swapped,
                                dynamic_fee: fee,
                                protocol_fee,
                                fund_fee,
                                dynamic_fee_rate,
                            },
                        )
                    },
                },
            },
        },
    }
}

/// What [`CurveCalculator::swap_base_input`] gives.
pub open spec fn curve_swap_base_input_spec(
    source_amount_to_be_swapped: u128,
    swap_source_amount: u128,
    swap_destination_amount: u128,
    amm_config: AmmConfig,
    block_timestamp: u64,
    observations: Seq<Observation>,
) -> Result<SwapResult, GammaError> {
    match dynamic_fee_rate_spec(observations, block_timestamp, amm_config.trade_fee_rate) {
        Err(e) => Err(e),
        Ok(rate) => swap_base_input_at_rate_spec(
            source_amount_to_be_swapped,
            swap_source_amount,
            swap_destination_amount,
            amm_config.protocol_fee_rate,
            amm_config.fund_fee_rate,
            rate,
        ),
    }
}

/// What [`CurveCalculator::swap_base_output`] gives.
pub open spec fn curve_swap_base_output_spec(
    destination_amount_to_be_swapped: u128,
    swap_source_amount: u128,
    swap_destination_amount: u128,
    trade_fee_rate: u64,
    protocol_fee_rate: u64,
    fund_fee_rate: u64,
    block_timestamp: u64,
    observations: Seq<Observation>,
) -> Result<SwapResult, GammaError> {
    match volatile_fee_spec(observations, block_timestamp, trade_fee_rate) {
        Err(e) => Err(e),
        Ok(rate) => swap_base_output_at_rate_spec(
            destination_amount_to_be_swapped,
            swap_source_amount,
            swap_destination_amount,
            protocol_fee_rate,
            fund_fee_rate,
            rate,
        ),
    }
}

/// Swaps and liquidity conversions on the constant-product curve, with the
/// dynamic trade fee.
pub struct CurveCalculator {}

impl CurveCalculator {
    /// The shares of the protocol and of the fund in a trade fee.
    pub fn fee_shares(fee: u128, protocol_fee_rate: u64, fund_fee_rate: u64) -> (r: Result<
        (u128, u128),
        GammaError,
    >)
        ensures
            r == fee_shares_spec(fee, protocol_fee_rate, fund_fee_rate),
            r.is_ok() && protocol_fee_rate + fund_fee_rate <= FEE_RATE_DENOMINATOR_VALUE ==> r.unwrap().0
                + r.unwrap().1 <= fee,
    {
        let protocol_fee = match StaticFee::protocol_fee(fee, protocol_fee_rate) {
            Some(v) => v,
            None => { return Err(GammaError::InvalidFee); },
        };
        let fund_fee = match StaticFee::fund_fee(fee, fund_fee_rate) {
            Some(v) => v,
            None => { return Err(GammaError::InvalidFee); },
        };
        proof {
            if protocol_fee_rate + fund_fee_rate <= FEE_RATE_DENOMINATOR_VALUE {
                StaticFee::lemma_shares_within_fee(fee, protocol_fee_rate, fund_fee_rate);
            }
        }
        Ok((protocol_fee, fund_fee))
    }

    /// A swap of `source_amount_to_be_swapped` at the trade fee rate given.
    ///
    /// On success the product of the two balances has not fallen, and with
    /// rates that together do not exceed the denominator the protocol and the
    /// fund together get no more than the trade fee.
    pub fn swap_base_input_at_rate(
        source_amount_to_be_swapped: u128,
        swap_source_amount: u128,
        swap_destination_amount: u128,
        protocol_fee_rate: u64,
        fund_fee_rate: u64,
        dynamic_fee_rate: u64,
    ) -> (r: Result<SwapResult, GammaError>)
        ensures
            r == swap_base_input_at_rate_spec(
                source_amount_to_be_swapped,
                swap_source_amount,
                swap_destination_amount,
                protocol_fee_rate,
                fund_fee_rate,
                dynamic_fee_rate,
            ),
            r.is_ok() ==> r.unwrap().new_swap_source_amount * r.unwrap().new_swap_destination_amount
                >= swap_source_amount * swap_destination_amount,
            r.is_ok() && protocol_fee_rate + fund_fee_rate <= FEE_RATE_DENOMINATOR_VALUE
                ==> r.unwrap().protocol_fee + r.unwrap().fund_fee <= r.unwrap().dynamic_fee,
    {
        let dynamic_fee = match DynamicFee::fee_at_rate(source_amount_to_be_swapped, dynamic_fee_rate) {
            Ok(v) => v,
            Err(e) => { return Err(e); },
        };
        let (protocol_fee, fund_fee) = match Self::fee_shares(dynamic_fee, protocol_fee_rate, fund_fee_rate) {
            Ok(v) => v,
            Err(e) => { return Err(e); },
        };
        let source_amount_after_fees = match source_amount_to_be_swapped.checked_sub(dynamic_fee) {
            Some(v) => v,
            None => { return Err(GammaError::MathOverflow); },
        };
        let destination_amount_swapped = match ConstantProductCurve::swap_base_input_without_fees(
            source_amount_after_fees,
            swap_source_amount,
            swap_destination_amount,
        ) {
            Ok(v) => v,
            Err(e) => { return Err(e); },
        };
        let new_swap_source_amount = match swap_source_amount.checked_add(source_amount_to_be_swapped) {
            Some(v) => v,
            None => { return Err(GammaError::MathOverflow); },
        };
        let new_swap_destination_amount = swap_destination_amount - destination_amount_swapped;
        proof {
            Self::lemma_product_kept(
                source_amount_to_be_swapped,
                source_amount_after_fees,
                swap_source_amount,
                swap_destination_amount,
            );
        }
        Ok(
            SwapResult {
                new_swap_source_amount,
                new_swap_destination_amount,
                source_amount_swapped: source_amount_to_be_swapped,
                destination_amount_swapped,
                dynamic_fee,
                protocol_fee,
                fund_fee,
                dynamic_fee_rate,
            },
        )
    }

    /// A swap that pays out `destination_amount_to_be_swapped`, at the trade
    /// fee rate given.
    pub fn swap_base_output_at_rate(
        destination_amount_to_be_swapped: u128,
        swap_source_amount: u128,
        swap_destination_amount: u128,
        protocol_fee_rate: u64,
        fund_fee_rate: u64,
        dynamic_fee_rate: u64,
    ) -> (r: Result<SwapResult, GammaError>)
        ensures
            r == swap_base_output_at_rate_spec(
                destination_amount_to_be_swapped,
                swap_source_amount,
                swap_destination_amount,
                protocol_fee_rate,
                fund_fee_rate,
                dynamic_fee_rate,
            ),
            r.is_ok() && protocol_fee_rate + fund_fee_rate <= FEE_RATE_DENOMINATOR_VALUE
                ==> r.unwrap().protocol_fee + r.unwrap().fund_fee <= r.unwrap().dynamic_fee,
    {
        let source_amount_after_fees = match ConstantProductCurve::swap_base_output_without_fees(
            destination_amount_to_be_swapped,
            swap_source_amount,
            swap_destination_amount,
        ) {
            Ok(v) => v,
            Err(e) => { return Err(e); },
        };
        let source_amount = match DynamicFee::pre_fee_amount_at_rate(source_amount_after_fees, dynamic_fee_rate) {
            Ok(v) => v,
            Err(e) => { return Err(e); },
        };
        let dynamic_fee = match DynamicFee::fee_at_rate(source_amount, dynamic_fee_rate) {
            Ok(v) => v,
            Err(e) => { return Err(e); },
        };
        let (protocol_fee, fund_fee) = match Self::fee_shares(dynamic_fee, protocol_fee_rate, fund_fee_rate) {
            Ok(v) => v,
            Err(e) => { return Err(e); },
        };
        let new_swap_source_amount = match swap_source_amount.checked_add(source_amount) {
            Some(v) => v,
            None => { return Err(GammaError::MathOverflow); },
        };
        Ok(
            SwapResult {
                new_swap_source_amount,
                new_swap_destination_amount: swap_destination_amount - destination_amount_to_be_swapped,
                source_amount_swapped: source_amount,
                destination_amount_swapped: destination_amount_to_be_swapped,
                dynamic_fee,
                protocol_fee,
                fund_fee,
                dynamic_fee_rate,
            },
        )
    }

    /// A swap of `source_amount_to_be_swapped` on the curve, at the dynamic
    /// fee rate that the observations give at `block_timestamp` over the base
    /// rate of `amm_config`.
    pub fn swap_base_input(
        source_amount_to_be_swapped: u128,
        swap_source_amount: u128,
        swap_destination_amount: u128,
        amm_config: &AmmConfig,
        pool_state: &PoolState,
        block_timestamp: u64,
        observation_state: &ObservationState,
        is_invoked_by_signed_segmenter: bool,
    ) -> (r: Result<SwapResult, GammaError>)
        ensures
            r == curve_swap_base_input_spec(
                source_amount_to_be_swapped,
                swap_source_amount,
                swap_destination_amount,
                *amm_config,
                block_timestamp,
                observation_state.observations@,
            ),
            r.is_ok() ==> r.unwrap().new_swap_source_amount * r.unwrap().new_swap_destination_amount
                >= swap_source_amount * swap_destination_amount,
            r.is_ok() ==> r.unwrap().source_amount_swapped == source_amount_to_be_swapped,
            r.is_ok() && amm_config.trade_fee_rate <= MAX_FEE ==> r.unwrap().dynamic_fee_rate <= MAX_FEE,
            r.is_ok() && amm_config.protocol_fee_rate + amm_config.fund_fee_rate
                <= FEE_RATE_DENOMINATOR_VALUE ==> r.unwrap().protocol_fee + r.unwrap().fund_fee
                <= r.unwrap().dynamic_fee,
    {
        let dynamic_fee_rate = match DynamicFee::dynamic_fee_rate(
            block_timestamp,
            observation_state,
            FeeType::Volatility,
            amm_config.trade_fee_rate,
            pool_state,
            is_invoked_by_signed_segmenter,
        ) {
            Ok(v) => v,
            Err(e) => { return Err(e); },
        };
        Self::swap_base_input_at_rate(
            source_amount_to_be_swapped,
            swap_source_amount,
            swap_destination_amount,
            amm_config.protocol_fee_rate,
            amm_config.fund_fee_rate,
            dynamic_fee_rate,
        )
    }

    /// A swap that pays out `destination_amount_to_be_swapped`, at the
    /// dynamic fee rate that the observations give at `block_timestamp` over
    /// `trade_fee_rate`.
    pub fn swap_base_output(
        destination_amount_to_be_swapped: u128,
        swap_source_amount: u128,
        swap_destination_amount: u128,
        trade_fee_rate: u64,
        protocol_fee_rate: u64,
        fund_fee_rate: u64,
        block_timestamp: u64,
        observation_state: &ObservationState,
        trade_direction: TradeDirection,
    ) -> (r: Result<SwapResult, GammaError>)
        ensures
            r == curve_swap_base_output_spec(
                destination_amount_to_be_swapped,
                swap_source_amount,
                swap_destination_amount,
                trade_fee_rate,
                protocol_fee_rate,
                fund_fee_rate,
                block_timestamp,
                observation_state.observations@,
            ),
    {
        let (vault_0, vault_1) = match trade_direction {
            TradeDirection::ZeroForOne => (swap_source_amount, swap_destination_amount),
            TradeDirection::OneForZero => (swap_destination_amount, swap_source_amount),
        };
        let dynamic_fee_rate = match DynamicFee::calculate_dynamic_fee(
            block_timestamp,
            observation_state,
            vault_0,
            vault_1,
            FeeType::Volatility,
            trade_fee_rate,
        ) {
            Ok(v) => v,
            Err(e) => { return Err(e); },
        };
        Self::swap_base_output_at_rate(
            destination_amount_to_be_swapped,
            swap_source_amount,
            swap_destination_amount,
            protocol_fee_rate,
            fund_fee_rate,
            dynamic_fee_rate,
        )
    }

    /// The amounts of the two tokens that an amount of liquidity tokens
    /// stands for: see [`ConstantProductCurve::lp_tokens_to_trading_tokens`].
    pub fn lp_tokens_to_trading_tokens(
        lp_token_amount: u128,
        lp_token_supply: u128,
        swap_token_0_amount: u128,
        swap_token_1_amount: u128,
        round_direction: RoundDirection,
    ) -> (r: Option<TradingTokenResult>)
        ensures
            r == lp_tokens_to_trading_tokens_spec(
                lp_token_amount,
                lp_token_supply,
                swap_token_0_amount,
                swap_token_1_amount,
                round_direction,
            ),
    {
        ConstantProductCurve::lp_tokens_to_trading_tokens(
            lp_token_amount,
            lp_token_supply,
            swap_token_0_amount,
            swap_token_1_amount,
            round_direction,
        )
    }

    /// A swap of token amounts succeeds: with the input and both balances
    /// no larger than a 64-bit counter holds, a pool that is not empty on
    /// the input side, and no rate above the whole, the swap at the rate
    /// given is worked out.
    pub proof fn lemma_swap_of_token_amounts_succeeds(
        source_amount_to_be_swapped: u128,
        swap_source_amount: u128,
        swap_destination_amount: u128,
        protocol_fee_rate: u64,
        fund_fee_rate: u64,
        dynamic_fee_rate: u64,
    )
        requires
            source_amount_to_be_swapped <= u64::MAX,
            0 < swap_source_amount <= u64::MAX,
            swap_destination_amount <= u64::MAX,
            protocol_fee_rate <= FEE_RATE_DENOMINATOR_VALUE,
            fund_fee_rate <= FEE_RATE_DENOMINATOR_VALUE,
            dynamic_fee_rate <= FEE_RATE_DENOMINATOR_VALUE,
        ensures
            swap_base_input_at_rate_spec(
                source_amount_to_be_swapped,
                swap_source_amount,
                swap_destination_amount,
                protocol_fee_rate,
                fund_fee_rate,
                dynamic_fee_rate,
            ).is_ok(),
    {
        let a = source_amount_to_be_swapped as int;
        let y = swap_destination_amount as int;
        let r = dynamic_fee_rate as int;
        let d = FEE_RATE_DENOMINATOR_VALUE as int;
        let fee = (a * r + d - 1) / d;
        assert(0 <= a * r <= a * d) by (nonlinear_arith)
            requires
                0 <= a,
                0 <= r <= d,
        ;
        assert(a * d <= 0xffff_ffff_ffff_ffff * 1_000_000) by (nonlinear_arith)
            requires
                0 <= a <= 0xffff_ffff_ffff_ffff,
                d == 1_000_000,
        ;
        assert(0 <= fee <= a) by (nonlinear_arith)
            requires
                fee == (a * r + d - 1) / d,
                0 <= a * r <= a * d,
                d > 0,
                0 <= a,
        ;
        assert(fee * protocol_fee_rate <= 0xffff_ffff_ffff_ffff * 1_000_000 && fee * fund_fee_rate
            <= 0xffff_ffff_ffff_ffff * 1_000_000) by (nonlinear_arith)
            requires
                0 <= fee <= 0xffff_ffff_ffff_ffff,
                0 <= protocol_fee_rate <= 1_000_000,
                0 <= fund_fee_rate <= 1_000_000,
        ;
        assert((a - fee) * y <= 0xffff_ffff_ffff_ffff * 0xffff_ffff_ffff_ffff) by (nonlinear_arith)
            requires
                0 <= a - fee <= 0xffff_ffff_ffff_ffff,
                0 <= y <= 0xffff_ffff_ffff_ffff,
        ;
    }

    /// A swap on the curve never lowers the product of the two balances: the
    /// whole input, of which `after_fees` is swapped, joins one balance, and
    /// the other loses the output, which is rounded down.
    pub proof fn lemma_product_kept(
        source_amount: u128,
        after_fees: u128,
        swap_source_amount: u128,
        swap_destination_amount: u128,
    )
        requires
            after_fees <= source_amount,
            swap_source_amount + after_fees > 0,
        ensures
            (swap_source_amount + source_amount) * (swap_destination_amount
                - crate::curve::constant_product::output_for_input(
                after_fees as int,
                swap_source_amount as int,
                swap_destination_amount as int,
            )) >= swap_source_amount * swap_destination_amount,
    {
        let a = source_amount as int;
        let b = after_fees as int;
        let x = swap_source_amount as int;
        let y = swap_destination_amount as int;
        let out = (b * y) / (x + b);
        assert(out * (x + b) <= b * y && out >= 0) by (nonlinear_arith)
            requires
                out == (b * y) / (x + b),
                x + b > 0,
                b >= 0,
                y >= 0,
        ;
        assert((x + b) * (y - out) >= x * y) by (nonlinear_arith)
            requires
                out * (x + b) <= b * y,
        ;
        assert(y - out >= 0) by (nonlinear_arith)
            requires
                out * (x + b) <= b * y,
                x >= 0,
                b >= 0,
                y >= 0,
                out >= 0,
                x + b > 0,
        ;
        assert((x + a) * (y - out) >= (x + b) * (y - out)) by (nonlinear_arith)
            requires
                a >= b,
                y - out >= 0,
        ;
    }
}

} // verus!
