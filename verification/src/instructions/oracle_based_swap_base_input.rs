use crate::curve::oracle_based_swap_calculator::{oracle_swap_base_input_spec, OracleBasedSwapCalculator};
use crate::curve::{SwapResult, TradeDirection};
use crate::error::GammaError;
use crate::fees::FEE_RATE_DENOMINATOR_VALUE;
use crate::states::config::AmmConfig;
use crate::states::oracle::{Observation, ObservationState};
use crate::states::pool::{PoolState, PoolStatusBitIndex, TokenLedger};
use crate::utils::pubkey::Pubkey;
use crate::utils::swap_referral::{referral_split, ReferralDetails, ReferralResult};
use vstd::prelude::*;

verus! {

/// A swap of a given input, priced and not yet carried out.
#[derive(Clone, Copy, Debug, PartialEq, Eq, Structural)]
pub struct SwapQuote {
    pub trade_direction: TradeDirection,
    /// The balance of the token that comes in, before the swap.
    pub total_input_token_amount: u64,
    /// The balance of the token that goes out, before the swap.
    pub total_output_token_amount: u64,
    /// What reaches the pool of the amount sent, the transfer fee taken off.
    pub actual_amount_in: u64,
    /// What leaves the pool.
    pub amount_out: u64,
    pub result: SwapResult,
    /// The price of token 0 before the swap, with 32 fractional bits.
    pub token_0_price_x32: u128,
    /// The price of token 1 before the swap, with 32 fractional bits.
    pub token_1_price_x32: u128,
}

/// The referrer's part of the fees of a swap.
#[derive(Clone, Copy, Debug, PartialEq, Eq, Structural)]
pub struct ReferralSplit {
    pub from_protocol_fee: ReferralResult,
    pub from_fund_fee: ReferralResult,
    /// What the referrer gets of the two fees together.
    pub referral_amount: u64,
}

/// The fees of a swap of a given input, in whole tokens.
#[derive(Clone, Copy, Debug, PartialEq, Eq, Structural)]
pub struct SwapFees {
    /// What the trader receives, the transfer fee of the output taken off.
    pub amount_received: u64,
    pub output_transfer_fee: u64,
    pub protocol_fee: u64,
    pub fund_fee: u64,
    pub dynamic_fee: u64,
    /// The referrer's part, where the swap has a referrer.
    pub referral: Option<ReferralSplit>,
}

/// The transfers that carry out a swap of a given input.
#[derive(Clone, Copy, Debug, PartialEq, Eq, Structural)]
pub struct SwapSettlement {
    /// What the trader sends to the vault.
    pub input_transfer_amount: u64,
    /// What the vault sends to the trader.
    pub output_transfer_amount: u64,
    /// What the trader sends to the referrer, if anything.
    pub transfer_referral_amount: Option<u64>,
    /// What the protocol gets, the partners' part taken off.
    pub protocol_fee: u64,
    /// What the partners of the pool get together.
    pub partner_protocol_fee: u64,
    pub fund_fee: u64,
}

/// `a - b`, and zero where `b` is more.
pub open spec fn saturating_difference(a: u64, b: u64) -> u64 {
    if a >= b {
        (a - b) as u64
    } else {
        0
    }
}

/// What [`oracle_based_swap_base_input`] gives.
pub open spec fn swap_quote_spec(
    pool_state: PoolState,
    amm_config: AmmConfig,
    observations: Seq<Observation>,
    input_vault: Pubkey,
    output_vault: Pubkey,
    amount_in: u64,
    transfer_fee: u64,
    block_timestamp: u64,
) -> Result<SwapQuote, GammaError> {
    let actual_amount_in = saturating_difference(amount_in, transfer_fee);
    if !pool_state.spec_status_by_bit(PoolStatusBitIndex::Swap) || block_timestamp < pool_state.open_time {
        Err(GammaError::NotApproved)
    } else {
        match (pool_state.spec_direction(input_vault, output_vault), pool_state.spec_token_price_x32()) {
            (None, _) => Err(GammaError::InvalidVault),
            (Some(_), None) => Err(GammaError::MathOverflow),
            (Some(zero_for_one), Some(prices)) => if actual_amount_in == 0 {
                Err(GammaError::RequireGtViolated)
            } else {
                let total_input = pool_state.spec_ledger(zero_for_one).vault_amount;
                let total_output = pool_state.spec_ledger(!zero_for_one).vault_amount;
                match oracle_swap_base_input_spec(
                    actual_amount_in as u128,
                    total_input as u128,
                    total_output as u128,
                    amm_config,
                    pool_state,
                    block_timestamp,
                    observations,
                ) {
                    Err(_) => Err(GammaError::ZeroTradingTokens),
                    Ok(result) => if result.destination_amount_swapped > u64::MAX {
                        Err(GammaError::MathOverflow)
                    } else {
                        Ok(
                            SwapQuote {
                                trade_direction: if zero_for_one {
                                    TradeDirection::ZeroForOne
                                } else {
                                    TradeDirection::OneForZero
                                },
                                total_input_token_amount: total_input,
                                total_output_token_amount: total_output,
                                actual_amount_in,
                                amount_out: result.destination_amount_swapped as u64,
                                result,
                                token_0_price_x32: prices.0,
                                token_1_price_x32: prices.1,
                            },
                        )
                    },
                }
            },
        }
    }
}

/// What [`swap_base_input_fees`] gives.
pub open spec fn swap_fees_spec(
    quote: SwapQuote,
    output_transfer_fee: u64,
    minimum_amount_out: u64,
    referral: Option<ReferralDetails>,
) -> Result<SwapFees, GammaError> {
    let received = quote.amount_out - output_transfer_fee;
    if received < 0 {
        Err(GammaError::MathOverflow)
    } else if received == 0 {
        Err(GammaError::RequireGtViolated)
    } else if received < minimum_amount_out {
        Err(GammaError::ExceededSlippage)
    } else if quote.result.protocol_fee > u64::MAX || quote.result.fund_fee > u64::MAX
        || quote.result.dynamic_fee > u64::MAX {
        Err(GammaError::MathOverflow)
    } else {
        let protocol_fee = quote.result.protocol_fee as u64;
        let fund_fee = quote.result.fund_fee as u64;
        let without_referral = SwapFees {
            amount_received: received as u64,
            output_transfer_fee,
            protocol_fee,
            fund_fee,
            dynamic_fee: quote.result.dynamic_fee as u64,
            referral: None,
        };
        match referral {
            None => Ok(without_referral),
            Some(info) => match (
                referral_split(protocol_fee, info.share_bps),
                referral_split(fund_fee, info.share_bps),
            ) {
                (Ok(from_protocol_fee), Ok(from_fund_fee)) => if from_protocol_fee.referral_amount
                    + from_fund_fee.referral_amount > u64::MAX {
                    Err(GammaError::MathOverflow)
                } else {
                    Ok(
                        SwapFees {
                            referral: Some(
                                ReferralSplit {
                                    from_protocol_fee,
                                    from_fund_fee,
                                    referral_amount: (from_protocol_fee.referral_amount
                                        + from_fund_fee.referral_amount) as u64,
                                },
                            ),
                            ..without_referral
                        },
                    )
                },
                _ => Err(GammaError::MathOverflow),
            },
        }
    }
}

/// The counters of the token that came in, after a swap of a given input.
pub open spec fn ledger_after_input(
    ledger: TokenLedger,
    protocol_fee: u64,
    partner_protocol_fee: u64,
    fund_fee: u64,
    dynamic_fee: u64,
    actual_amount_in: u64,
) -> Option<TokenLedger> {
    if ledger.protocol_fees + protocol_fee > u64::MAX || ledger.partner_protocol_fees + partner_protocol_fee
        > u64::MAX || ledger.fund_fees + fund_fee > u64::MAX || ledger.cumulative_trade_fees + dynamic_fee
        > u128::MAX || ledger.cumulative_volume + actual_amount_in > u128::MAX || ledger.vault_amount
        + actual_amount_in > u64::MAX || ledger.vault_amount + actual_amount_in - fund_fee < 0
        || ledger.vault_amount + actual_amount_in - fund_fee - protocol_fee < 0 {
        None
    } else {
        Some(
            TokenLedger {
                protocol_fees: (ledger.protocol_fees + protocol_fee) as u64,
                partner_protocol_fees: (ledger.partner_protocol_fees + partner_protocol_fee) as u64,
                fund_fees: (ledger.fund_fees + fund_fee) as u64,
                cumulative_trade_fees: (ledger.cumulative_trade_fees + dynamic_fee) as u128,
                cumulative_volume: (ledger.cumulative_volume + actual_amount_in) as u128,
                vault_amount: (ledger.vault_amount + actual_amount_in - fund_fee - protocol_fee) as u64,
            },
        )
    }
}

/// The counters of the token that went out, after a swap.
pub open spec fn ledger_after_output(ledger: TokenLedger, amount_out: u64) -> Option<TokenLedger> {
    if ledger.cumulative_volume + amount_out > u128::MAX || ledger.vault_amount < amount_out {
        None
    } else {
        Some(
            TokenLedger {
                cumulative_volume: (ledger.cumulative_volume + amount_out) as u128,
                vault_amount: (ledger.vault_amount - amount_out) as u64,
                ..ledger
            },
        )
    }
}

/// Whether the referrer of the swap is paid: there is one, its part is not
/// zero, and the transfer to it costs less than it carries.
pub open spec fn pays_referral(fees: SwapFees, referral_transfer_fee: u64) -> bool {
    match fees.referral {
        Some(split) => split.referral_amount != 0 && referral_transfer_fee < split.referral_amount,
        None => false,
    }
}

/// What [`settle_swap_base_input`] gives: the pool after the swap and the
/// transfers that carry it out.
pub open spec fn settlement_spec(
    pool_state: PoolState,
    quote: SwapQuote,
    fees: SwapFees,
    amount_in: u64,
    referral_transfer_fee: u64,
) -> Result<(PoolState, SwapSettlement), GammaError> {
    let pays = pays_referral(fees, referral_transfer_fee);
    let referral_amount = if pays {
        fees.referral.unwrap().referral_amount
    } else {
        0
    };
    let protocol_fee = if pays {
        fees.referral.unwrap().from_protocol_fee.amount_after_referral
    } else {
        fees.protocol_fee
    };
    let fund_fee = if pays {
        fees.referral.unwrap().from_fund_fee.amount_after_referral
    } else {
        fees.fund_fee
    };
    let partner_protocol_fee = (pool_state.partner_share_rate * protocol_fee) / (
    FEE_RATE_DENOMINATOR_VALUE as int);
    let zero_for_one = quote.trade_direction == TradeDirection::ZeroForOne;
    if amount_in < referral_amount || quote.actual_amount_in < referral_amount {
        Err(GammaError::MathOverflow)
    } else if partner_protocol_fee > u64::MAX {
        Err(GammaError::MathError)
    } else if partner_protocol_fee > protocol_fee {
        Err(GammaError::MathOverflow)
    } else {
        match (
            ledger_after_input(
                pool_state.spec_ledger(zero_for_one),
                (protocol_fee - partner_protocol_fee) as u64,
                partner_protocol_fee as u64,
                fund_fee,
                fees.dynamic_fee,
                (quote.actual_amount_in - referral_amount) as u64,
            ),
            ledger_after_output(pool_state.spec_ledger(!zero_for_one), quote.amount_out),
        ) {
            (Some(input_ledger), Some(output_ledger)) => Ok(
                (
                    PoolState {
                        latest_dynamic_fee_rate: quote.result.dynamic_fee_rate,
                        ..pool_state.spec_with_ledger(zero_for_one, input_ledger).spec_with_ledger(
                            !zero_for_one,
                            output_ledger,
                        )
                    },
                    SwapSettlement {
                        input_transfer_amount: (amount_in - referral_amount) as u64,
                        output_transfer_amount: quote.amount_out,
                        transfer_referral_amount: if pays {
                            Some(referral_amount)
                        } else {
                            None
                        },
                        protocol_fee: (protocol_fee - partner_protocol_fee) as u64,
                        partner_protocol_fee: partner_protocol_fee as u64,
                        fund_fee,
                    },
                ),
            ),
            _ => Err(GammaError::MathOverflow),
        }
    }
}

/// Prices a swap of `amount_in`, of which `transfer_fee` is lost on the way
/// to the pool, from `input_vault` to `output_vault`.
///
/// The pool has to allow swaps and to be open (`NotApproved`), the vaults
/// have to be its two vaults (`InvalidVault`), and something has to reach it
/// (`RequireGtViolated`). A swap that the calculator cannot price is
/// `ZeroTradingTokens`, whatever stopped the calculator.
pub fn oracle_based_swap_base_input(
    pool_state: &PoolState,
    amm_config: &AmmConfig,
    observation_state: &ObservationState,
    input_vault: &Pubkey,
    output_vault: &Pubkey,
    amount_in: u64,
    transfer_fee: u64,
    block_timestamp: u64,
    is_invoked_by_signed_segmenter: bool,
) -> (r: Result<SwapQuote, GammaError>)
    ensures
        r == swap_quote_spec(
            *pool_state,
            *amm_config,
            observation_state.observations@,
            *input_vault,
            *output_vault,
            amount_in,
            transfer_fee,
            block_timestamp,
        ),
{
    if !pool_state.get_status_by_bit(PoolStatusBitIndex::Swap) || block_timestamp < pool_state.open_time {
        return Err(GammaError::NotApproved);
    }
    let zero_for_one = match pool_state.zero_for_one(input_vault, output_vault) {
        Some(v) => v,
        None => { return Err(GammaError::InvalidVault); },
    };
    let (token_0_price_x32, token_1_price_x32) = match pool_state.token_price_x32() {
        Ok(v) => v,
        Err(e) => { return Err(e); },
    };
    let actual_amount_in = amount_in.saturating_sub(transfer_fee);
    if actual_amount_in == 0 {
        return Err(GammaError::RequireGtViolated);
    }
    let (amount_0, amount_1) = match pool_state.vault_amount_without_fee() {
        Ok(v) => v,
        Err(e) => { return Err(e); },
    };
    let (trade_direction, total_input_token_amount, total_output_token_amount) = if zero_for_one {
        (TradeDirection::ZeroForOne, amount_0, amount_1)
    } else {
        (TradeDirection::OneForZero, amount_1, amount_0)
    };
    let result = match OracleBasedSwapCalculator::swap_base_input(
        actual_amount_in as u128,
        total_input_token_amount as u128,
        total_output_token_amount as u128,
        amm_config,
        pool_state,
        block_timestamp,
        observation_state,
        is_invoked_by_signed_segmenter,
    ) {
        Ok(v) => v,
        Err(_) => { return Err(GammaError::ZeroTradingTokens); },
    };
    if result.source_amount_swapped > u64::MAX as u128 {
        return Err(GammaError::MathOverflow);
    }
    if result.source_amount_swapped as u64 != actual_amount_in {
        return Err(GammaError::RequireEqViolated);
    }
    if result.destination_amount_swapped > u64::MAX as u128 {
        return Err(GammaError::MathOverflow);
    }
    Ok(
        SwapQuote {
            trade_direction,
            total_input_token_amount,
            total_output_token_amount,
            actual_amount_in,
            amount_out: result.destination_amount_swapped as u64,
            result,
            token_0_price_x32,
            token_1_price_x32,
        },
    )
}

/// The fees of a priced swap in whole tokens, once the transfer fee on its
/// output is known.
///
/// The trader has to receive something (`RequireGtViolated`) and no less
/// than `minimum_amount_out` (`ExceededSlippage`). Where the swap has a
/// referrer, its share of the protocol fee and of the fund fee is worked
/// out.
pub fn swap_base_input_fees(
    quote: &SwapQuote,
    output_transfer_fee: u64,
    minimum_amount_out: u64,
    referral: Option<ReferralDetails>,
) -> (r: Result<SwapFees, GammaError>)
    ensures
        r == swap_fees_spec(*quote, output_transfer_fee, minimum_amount_out, referral),
{
    let amount_received = match quote.amount_out.checked_sub(output_transfer_fee) {
        Some(v) => v,
        None => { return Err(GammaError::MathOverflow); },
    };
    if amount_received == 0 {
        return Err(GammaError::RequireGtViolated);
    }
    if amount_received < minimum_amount_out {
        return Err(GammaError::ExceededSlippage);
    }
    if quote.result.protocol_fee > u64::MAX as u128 || quote.result.fund_fee > u64::MAX as u128
        || quote.result.dynamic_fee > u64::MAX as u128 {
        return Err(GammaError::MathOverflow);
    }
    let protocol_fee = quote.result.protocol_fee as u64;
    let fund_fee = quote.result.fund_fee as u64;
    let dynamic_fee = quote.result.dynamic_fee as u64;
    let referral = match referral {
        None => None,
        Some(info) => {
            let from_protocol_fee = match info.get_referral_amount(protocol_fee) {
                Ok(v) => v,
                Err(e) => { return Err(e); },
            };
            let from_fund_fee = match info.get_referral_amount(fund_fee) {
                Ok(v) => v,
                Err(e) => { return Err(e); },
            };
            let referral_amount = match from_protocol_fee.referral_amount.checked_add(
                from_fund_fee.referral_amount,
            ) {
                Some(v) => v,
                None => { return Err(GammaError::MathOverflow); },
            };
            Some(ReferralSplit { from_protocol_fee, from_fund_fee, referral_amount })
        },
    };
    Ok(SwapFees { amount_received, output_transfer_fee, protocol_fee, fund_fee, dynamic_fee, referral })
}

/// The counters of the token that came in, after a swap of a given input.
pub fn credit_input_ledger(
    ledger: &TokenLedger,
    protocol_fee: u64,
    partner_protocol_fee: u64,
    fund_fee: u64,
    dynamic_fee: u64,
    actual_amount_in: u64,
) -> (r: Option<TokenLedger>)
    ensures
        r == ledger_after_input(*ledger, protocol_fee, partner_protocol_fee, fund_fee, dynamic_fee, actual_amount_in),
{
    let protocol_fees = ledger.protocol_fees.checked_add(protocol_fee)?;
    let partner_protocol_fees = ledger.partner_protocol_fees.checked_add(partner_protocol_fee)?;
    let fund_fees = ledger.fund_fees.checked_add(fund_fee)?;
    let cumulative_trade_fees = ledger.cumulative_trade_fees.checked_add(dynamic_fee as u128)?;
    let cumulative_volume = ledger.cumulative_volume.checked_add(actual_amount_in as u128)?;
    let with_input = ledger.vault_amount.checked_add(actual_amount_in)?;
    let without_fund_fee = with_input.checked_sub(fund_fee)?;
    let vault_amount = without_fund_fee.checked_sub(protocol_fee)?;
    Some(
        TokenLedger {
            protocol_fees,
            partner_protocol_fees,
            fund_fees,
            cumulative_trade_fees,
            cumulative_volume,
            vault_amount,
        },
    )
}

/// The counters of the token that went out, after a swap.
pub fn debit_output_ledger(ledger: &TokenLedger, amount_out: u64) -> (r: Option<TokenLedger>)
    ensures
        r == ledger_after_output(*ledger, amount_out),
{
    let cumulative_volume = ledger.cumulative_volume.checked_add(amount_out as u128)?;
    let vault_amount = ledger.vault_amount.checked_sub(amount_out)?;
    Some(TokenLedger { cumulative_volume, vault_amount, ..*ledger })
}

/// Books a priced swap on the pool and gives the transfers that carry it
/// out.
///
/// `amount_in` is what the trader set out to send, and `referral_transfer_fee`
/// what the transfer of the referrer's part would cost. The referrer is paid
/// only where its part is not zero and is more than that cost: then its part
/// comes off the protocol fee, the fund fee and what is sent to the vault.
/// Of the protocol fee, the partners of the pool get `partner_share_rate`
/// parts of the fee denominator.
///
/// The pool counts the fees, the volume of both tokens and its new
/// balances, and notes the fee rate of the swap. On an error the pool is
/// left as it was.
pub fn settle_swap_base_input(
    pool_state: &mut PoolState,
    quote: &SwapQuote,
    fees: &SwapFees,
    amount_in: u64,
    referral_transfer_fee: u64,
) -> (r: Result<SwapSettlement, GammaError>)
    ensures
        match settlement_spec(*old(pool_state), *quote, *fees, amount_in, referral_transfer_fee) {
            Ok((pool, settlement)) => r == Ok::<SwapSettlement, GammaError>(settlement) && *final(pool_state)
                == pool,
            Err(e) => r == Err::<SwapSettlement, GammaError>(e) && *final(pool_state) == *old(pool_state),
        },
{
    let mut protocol_fee = fees.protocol_fee;
    let mut fund_fee = fees.fund_fee;
    let mut input_transfer_amount = amount_in;
    let mut actual_amount_in = quote.actual_amount_in;
    let mut transfer_referral_amount: Option<u64> = None;
    if let Some(split) = fees.referral {
        if split.referral_amount != 0 && referral_transfer_fee < split.referral_amount {
            protocol_fee = split.from_protocol_fee.amount_after_referral;
            fund_fee = split.from_fund_fee.amount_after_referral;
            input_transfer_amount = match input_transfer_amount.checked_sub(split.referral_amount) {
                Some(v) => v,
                None => { return Err(GammaError::MathOverflow); },
            };
            actual_amount_in = match actual_amount_in.checked_sub(split.referral_amount) {
                Some(v) => v,
                None => { return Err(GammaError::MathOverflow); },
            };
            transfer_referral_amount = Some(split.referral_amount);
        }
    }
    assert(pool_state.partner_share_rate * protocol_fee <= u128::MAX) by (nonlinear_arith)
        requires
            pool_state.partner_share_rate <= u64::MAX,
            protocol_fee <= u64::MAX,
    ;
    let partner_protocol_fee_wide = (pool_state.partner_share_rate as u128 * protocol_fee as u128) / (
    FEE_RATE_DENOMINATOR_VALUE as u128);
    if partner_protocol_fee_wide > u64::MAX as u128 {
        return Err(GammaError::MathError);
    }
    let partner_protocol_fee = partner_protocol_fee_wide as u64;
    protocol_fee = match protocol_fee.checked_sub(partner_protocol_fee) {
        Some(v) => v,
        None => { return Err(GammaError::MathOverflow); },
    };
    let zero_for_one = match quote.trade_direction {
        TradeDirection::ZeroForOne => true,
        TradeDirection::OneForZero => false,
    };
    let input_ledger = match credit_input_ledger(
        &pool_state.ledger(zero_for_one),
        protocol_fee,
        partner_protocol_fee,
        fund_fee,
        fees.dynamic_fee,
        actual_amount_in,
    ) {
        Some(v) => v,
        None => { return Err(GammaError::MathOverflow); },
    };
    let output_ledger = match debit_output_ledger(&pool_state.ledger(!zero_for_one), quote.amount_out) {
        Some(v) => v,
        None => { return Err(GammaError::MathOverflow); },
    };
    pool_state.set_ledger(zero_for_one, input_ledger);
    pool_state.set_ledger(!zero_for_one, output_ledger);
    pool_state.latest_dynamic_fee_rate = quote.result.dynamic_fee_rate;
    Ok(
        SwapSettlement {
            input_transfer_amount,
            output_transfer_amount: quote.amount_out,
            transfer_referral_amount,
            protocol_fee,
            partner_protocol_fee,
            fund_fee,
        },
    )
}

} // verus!
