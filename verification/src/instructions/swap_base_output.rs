use crate::curve::calculator::{curve_swap_base_output_spec, CurveCalculator};
use crate::curve::{SwapResult, TradeDirection};
use crate::error::GammaError;
use crate::states::config::AmmConfig;
use crate::states::oracle::{Observation, ObservationState};
use crate::states::pool::{PoolState, PoolStatusBitIndex, TokenLedger};
use crate::utils::pubkey::Pubkey;
use crate::utils::swap_referral::{ReferralDetails, REFERRAL_SHARE_BPS};
use vstd::prelude::*;

verus! {

/// A swap for a given output, priced and not yet carried out.
#[derive(Clone, Copy, Debug, PartialEq, Eq, Structural)]
pub struct SwapOutputQuote {
    pub trade_direction: TradeDirection,
    /// The balance of the token that comes in, before the swap.
    pub total_input_token_amount: u64,
    /// The balance of the token that goes out, before the swap.
    pub total_output_token_amount: u64,
    /// What leaves the pool: what the trader is to receive and the transfer
    /// fee on it.
    pub actual_amount_out: u64,
    pub out_transfer_fee: u64,
    /// What has to reach the pool.
    pub source_amount_swapped: u64,
    pub result: SwapResult,
}

/// The transfers that carry out a swap for a given output.
#[derive(Clone, Copy, Debug, PartialEq, Eq, Structural)]
pub struct SwapOutputSettlement {
    /// What the trader sends to the vault.
    pub input_transfer_amount: u64,
    pub input_transfer_fee: u64,
    /// What the vault sends to the trader.
    pub output_transfer_amount: u64,
    pub output_transfer_fee: u64,
    /// What the trader sends to the referrer, if anything.
    pub referral_amount: Option<u64>,
    /// The trade fee that the pool counts, the referrer's part taken off.
    pub dynamic_fee: u64,
}

/// What [`swap_base_output`] gives.
pub open spec fn swap_output_quote_spec(
    pool_state: PoolState,
    amm_config: AmmConfig,
    observations: Seq<Observation>,
    input_vault: Pubkey,
    output_vault: Pubkey,
    total_token_0_amount: u64,
    total_token_1_amount: u64,
    amount_out_less_fee: u64,
    out_transfer_fee: u64,
    block_timestamp: u64,
) -> Result<SwapOutputQuote, GammaError> {
    if !pool_state.spec_status_by_bit(PoolStatusBitIndex::Swap) || block_timestamp < pool_state.open_time {
        Err(GammaError::NotApproved)
    } else if amount_out_less_fee + out_transfer_fee > u64::MAX {
        Err(GammaError::MathOverflow)
    } else {
        match pool_state.spec_direction(input_vault, output_vault) {
            None => Err(GammaError::InvalidVault),
            Some(zero_for_one) => {
                let trade_direction = if zero_for_one {
                    TradeDirection::ZeroForOne
                } else {
                    TradeDirection::OneForZero
                };
                let total_input = if zero_for_one {
                    total_token_0_amount
                } else {
                    total_token_1_amount
                };
                let total_output = if zero_for_one {
                    total_token_1_amount
                } else {
                    total_token_0_amount
                };
                match curve_swap_base_output_spec(
                    (amount_out_less_fee + out_transfer_fee) as u128,
                    total_input as u128,
                    total_output as u128,
                    amm_config.trade_fee_rate,
                    amm_config.protocol_fee_rate,
                    amm_config.fund_fee_rate,
                    block_timestamp,
                    observations,
                ) {
                    Err(_) => Err(GammaError::ZeroTradingTokens),
                    Ok(result) => if result.new_swap_source_amount * result.new_swap_destination_amount
                        > u128::MAX {
                        Err(GammaError::MathOverflow)
                    } else if result.new_swap_source_amount * result.new_swap_destination_amount
                        < total_input * total_output {
                        Err(GammaError::RequireGteViolated)
                    } else if result.source_amount_swapped > u64::MAX {
                        Err(GammaError::MathOverflow)
                    } else if result.source_amount_swapped == 0 {
                        Err(GammaError::RequireGtViolated)
                    } else {
                        Ok(
                            SwapOutputQuote {
                                trade_direction,
                                total_input_token_amount: total_input,
                                total_output_token_amount: total_output,
                                actual_amount_out: (amount_out_less_fee + out_transfer_fee) as u64,
                                out_transfer_fee,
                                source_amount_swapped: result.source_amount_swapped as u64,
                                result,
                            },
                        )
                    },
                }
            },
        }
    }
}

/// What is left of the trade fee once the protocol and the fund have their
/// parts.
pub open spec fn fee_left_to_pool(dynamic_fee: u64, protocol_fee: u64, fund_fee: u64) -> int {
    let after_protocol = if dynamic_fee >= protocol_fee {
        dynamic_fee - protocol_fee
    } else {
        0
    };
    if after_protocol >= fund_fee {
        after_protocol - fund_fee
    } else {
        0
    }
}

/// The counters of the token that came in, after a swap for a given output.
pub open spec fn ledger_after_output_swap(
    ledger: TokenLedger,
    protocol_fee: u64,
    fund_fee: u64,
    dynamic_fee: u64,
    source_amount_swapped: u64,
) -> Option<TokenLedger> {
    if ledger.protocol_fees + protocol_fee > u64::MAX || ledger.fund_fees + fund_fee > u64::MAX
        || ledger.cumulative_trade_fees + dynamic_fee > u128::MAX || ledger.cumulative_volume
        + source_amount_swapped > u128::MAX {
        None
    } else {
        Some(
            TokenLedger {
                protocol_fees: (ledger.protocol_fees + protocol_fee) as u64,
                fund_fees: (ledger.fund_fees + fund_fee) as u64,
                cumulative_trade_fees: (ledger.cumulative_trade_fees + dynamic_fee) as u128,
                cumulative_volume: (ledger.cumulative_volume + source_amount_swapped) as u128,
                ..ledger
            },
        )
    }
}

/// What [`settle_swap_base_output`] gives: the pool after the swap and the
/// transfers that carry it out.
pub open spec fn output_settlement_spec(
    pool_state: PoolState,
    quote: SwapOutputQuote,
    input_transfer_fee: u64,
    max_amount_in: u64,
    referral: Option<ReferralDetails>,
) -> Result<(PoolState, SwapOutputSettlement), GammaError> {
    let sent = quote.source_amount_swapped + input_transfer_fee;
    if sent > u64::MAX {
        Err(GammaError::MathOverflow)
    } else if max_amount_in < sent {
        Err(GammaError::ExceededSlippage)
    } else if quote.result.destination_amount_swapped > u64::MAX {
        Err(GammaError::MathOverflow)
    } else if quote.result.destination_amount_swapped != quote.actual_amount_out {
        Err(GammaError::RequireEqViolated)
    } else if quote.result.protocol_fee > u64::MAX || quote.result.fund_fee > u64::MAX
        || quote.result.dynamic_fee > u64::MAX || quote.result.source_amount_swapped > u64::MAX {
        Err(GammaError::MathOverflow)
    } else {
        let protocol_fee = quote.result.protocol_fee as u64;
        let fund_fee = quote.result.fund_fee as u64;
        let dynamic_fee = quote.result.dynamic_fee as u64;
        let share = match referral {
            Some(info) => info.share_bps as int,
            None => 0,
        };
        let left = fee_left_to_pool(dynamic_fee, protocol_fee, fund_fee);
        let referral_amount = (left * share) / (REFERRAL_SHARE_BPS as int);
        let zero_for_one = quote.trade_direction == TradeDirection::ZeroForOne;
        if left * share > u64::MAX {
            Err(GammaError::MathOverflow)
        } else if referral_amount > dynamic_fee || referral_amount > sent {
            Err(GammaError::MathError)
        } else {
            match ledger_after_output_swap(
                pool_state.spec_ledger(zero_for_one),
                protocol_fee,
                fund_fee,
                (dynamic_fee - referral_amount) as u64,
                quote.result.source_amount_swapped as u64,
            ) {
                None => Err(GammaError::MathOverflow),
                Some(ledger) => Ok(
                    (
                        pool_state.spec_with_ledger(zero_for_one, ledger),
                        SwapOutputSettlement {
                            input_transfer_amount: (sent - referral_amount) as u64,
                            input_transfer_fee,
                            output_transfer_amount: quote.actual_amount_out,
                            output_transfer_fee: quote.out_transfer_fee,
                            referral_amount: if referral_amount != 0 {
                                Some(referral_amount as u64)
                            } else {
                                None
                            },
                            dynamic_fee: (dynamic_fee - referral_amount) as u64,
                        },
                    ),
                ),
            }
        }
    }
}

/// Prices a swap that lets the trader receive `amount_out_less_fee`, of which
/// the transfer to the trader costs `out_transfer_fee` more, from
/// `input_vault` to `output_vault`.
///
/// `total_token_0_amount` and `total_token_1_amount` are the balances that
/// the pool trades on. The pool has to allow swaps and to be open
/// (`NotApproved`), and the vaults have to be its two vaults
/// (`InvalidVault`). A swap that the calculator cannot price is
/// `ZeroTradingTokens`. The product of the balances must not fall
/// (`RequireGteViolated`), and something has to come in
/// (`RequireGtViolated`).
pub fn swap_base_output(
    pool_state: &PoolState,
    amm_config: &AmmConfig,
    observation_state: &ObservationState,
    input_vault: &Pubkey,
    output_vault: &Pubkey,
    total_token_0_amount: u64,
    total_token_1_amount: u64,
    amount_out_less_fee: u64,
    out_transfer_fee: u64,
    block_timestamp: u64,
) -> (r: Result<SwapOutputQuote, GammaError>)
    ensures
        r == swap_output_quote_spec(
            *pool_state,
            *amm_config,
            observation_state.observations@,
            *input_vault,
            *output_vault,
            total_token_0_amount,
            total_token_1_amount,
            amount_out_less_fee,
            out_transfer_fee,
            block_timestamp,
        ),
        r.is_ok() ==> r.unwrap().result.new_swap_source_amount * r.unwrap().result.new_swap_destination_amount
            >= r.unwrap().total_input_token_amount * r.unwrap().total_output_token_amount,
{
    if !pool_state.get_status_by_bit(PoolStatusBitIndex::Swap) || block_timestamp < pool_state.open_time {
        return Err(GammaError::NotApproved);
    }
    let actual_amount_out = match amount_out_less_fee.checked_add(out_transfer_fee) {
        Some(v) => v,
        None => { return Err(GammaError::MathOverflow); },
    };
    let zero_for_one = match pool_state.zero_for_one(input_vault, output_vault) {
        Some(v) => v,
        None => { return Err(GammaError::InvalidVault); },
    };
    let (trade_direction, total_input_token_amount, total_output_token_amount) = if zero_for_one {
        (TradeDirection::ZeroForOne, total_token_0_amount, total_token_1_amount)
    } else {
        (TradeDirection::OneForZero, total_token_1_amount, total_token_0_amount)
    };
    assert(total_input_token_amount * total_output_token_amount <= u128::MAX) by (nonlinear_arith)
        requires
            total_input_token_amount <= u64::MAX,
            total_output_token_amount <= u64::MAX,
    ;
    let constant_before = total_input_token_amount as u128 * total_output_token_amount as u128;
    let result = match CurveCalculator::swap_base_output(
        actual_amount_out as u128,
        total_input_token_amount as u128,
        total_output_token_amount as u128,
        amm_config.trade_fee_rate,
        amm_config.protocol_fee_rate,
        amm_config.fund_fee_rate,
        block_timestamp,
        observation_state,
        trade_direction,
    ) {
        Ok(v) => v,
        Err(_) => { return Err(GammaError::ZeroTradingTokens); },
    };
    let constant_after = match result.new_swap_source_amount.checked_mul(result.new_swap_destination_amount) {
        Some(v) => v,
        None => { return Err(GammaError::MathOverflow); },
    };
    if constant_after < constant_before {
        return Err(GammaError::RequireGteViolated);
    }
    if result.source_amount_swapped > u64::MAX as u128 {
        return Err(GammaError::MathOverflow);
    }
    let source_amount_swapped = result.source_amount_swapped as u64;
    if source_amount_swapped == 0 {
        return Err(GammaError::RequireGtViolated);
    }
    Ok(
        SwapOutputQuote {
            trade_direction,
            total_input_token_amount,
            total_output_token_amount,
            actual_amount_out,
            out_transfer_fee,
            source_amount_swapped,
            result,
        },
    )
}

/// The counters of the token that came in, after a swap for a given output.
pub fn credit_output_swap_ledger(
    ledger: &TokenLedger,
    protocol_fee: u64,
    fund_fee: u64,
    dynamic_fee: u64,
    source_amount_swapped: u64,
) -> (r: Option<TokenLedger>)
    ensures
        r == ledger_after_output_swap(*ledger, protocol_fee, fund_fee, dynamic_fee, source_amount_swapped),
{
    let protocol_fees = ledger.protocol_fees.checked_add(protocol_fee)?;
    let fund_fees = ledger.fund_fees.checked_add(fund_fee)?;
    let cumulative_trade_fees = ledger.cumulative_trade_fees.checked_add(dynamic_fee as u128)?;
    let cumulative_volume = ledger.cumulative_volume.checked_add(source_amount_swapped as u128)?;
    Some(TokenLedger { protocol_fees, fund_fees, cumulative_trade_fees, cumulative_volume, ..*ledger })
}

/// Books a priced swap for a given output on the pool and gives the
/// transfers that carry it out.
///
/// `input_transfer_fee` is what the transfer of the input costs on top of
/// what has to reach the pool; together they must not exceed `max_amount_in`
/// (`ExceededSlippage`). A referrer gets its share of what the trade fee
/// leaves after the parts of the protocol and the fund; that comes off the
/// fee that the pool counts and off what is sent to the vault.
///
/// The pool counts the fees and the volume of the token that came in. On an
/// error the pool is left as it was.
pub fn settle_swap_base_output(
    pool_state: &mut PoolState,
    quote: &SwapOutputQuote,
    input_transfer_fee: u64,
    max_amount_in: u64,
    referral: Option<ReferralDetails>,
) -> (r: Result<SwapOutputSettlement, GammaError>)
    ensures
        match output_settlement_spec(*old(pool_state), *quote, input_transfer_fee, max_amount_in, referral) {
            Ok((pool, settlement)) => r == Ok::<SwapOutputSettlement, GammaError>(settlement) && *final(pool_state) == pool,
            Err(e) => r == Err::<SwapOutputSettlement, GammaError>(e) && *final(pool_state) == *old(pool_state),
        },
{
    let mut input_transfer_amount = match quote.source_amount_swapped.checked_add(input_transfer_fee) {
        Some(v) => v,
        None => { return Err(GammaError::MathOverflow); },
    };
    if max_amount_in < input_transfer_amount {
        return Err(GammaError::ExceededSlippage);
    }
    if quote.result.destination_amount_swapped > u64::MAX as u128 {
        return Err(GammaError::MathOverflow);
    }
    if quote.result.destination_amount_swapped as u64 != quote.actual_amount_out {
        return Err(GammaError::RequireEqViolated);
    }
    if quote.result.protocol_fee > u64::MAX as u128 || quote.result.fund_fee > u64::MAX as u128
        || quote.result.dynamic_fee > u64::MAX as u128 || quote.result.source_amount_swapped
        > u64::MAX as u128 {
        return Err(GammaError::MathOverflow);
    }
    let protocol_fee = quote.result.protocol_fee as u64;
    let fund_fee = quote.result.fund_fee as u64;
    let mut dynamic_fee = quote.result.dynamic_fee as u64;
    let source_amount_swapped = quote.result.source_amount_swapped as u64;
    let mut paid_to_referrer: Option<u64> = None;
    if let Some(info) = referral {
        let left = dynamic_fee.saturating_sub(protocol_fee).saturating_sub(fund_fee);
        let referral_amount = match left.checked_mul(info.share_bps as u64) {
            Some(v) => v / REFERRAL_SHARE_BPS,
            None => { return Err(GammaError::MathOverflow); },
        };
        if referral_amount != 0 {
            dynamic_fee = match dynamic_fee.checked_sub(referral_amount) {
                Some(v) => v,
                None => { return Err(GammaError::MathError); },
            };
            input_transfer_amount = match input_transfer_amount.checked_sub(referral_amount) {
                Some(v) => v,
                None => { return Err(GammaError::MathError); },
            };
            paid_to_referrer = Some(referral_amount);
        }
    } else {
        assert(fee_left_to_pool(dynamic_fee, protocol_fee, fund_fee) * 0 == 0) by (nonlinear_arith);
    }
    let zero_for_one = match quote.trade_direction {
        TradeDirection::ZeroForOne => true,
        TradeDirection::OneForZero => false,
    };
    let ledger = match credit_output_swap_ledger(
        &pool_state.ledger(zero_for_one),
        protocol_fee,
        fund_fee,
        dynamic_fee,
        source_amount_swapped,
    ) {
        Some(v) => v,
        None => { return Err(GammaError::MathOverflow); },
    };
    pool_state.set_ledger(zero_for_one, ledger);
    Ok(
        SwapOutputSettlement {
            input_transfer_amount,
            input_transfer_fee,
            output_transfer_amount: quote.actual_amount_out,
            output_transfer_fee: quote.out_transfer_fee,
            referral_amount: paid_to_referrer,
            dynamic_fee,
        },
    )
}

} // verus!
