use crate::curve::calculator::{curve_swap_base_input_spec, CurveCalculator};
use crate::curve::oracle_based_swap_calculator::{oracle_swap_base_input_spec, OracleBasedSwapCalculator};
use crate::curve::SwapResult;
use crate::error::GammaError;
use crate::states::config::AmmConfig;
use crate::states::oracle::ObservationState;
use crate::states::pool::PoolState;
use vstd::prelude::*;

verus! {

/// A request for the price of a swap, with the state of the pool as the
/// caller read it.
#[derive(Clone, Copy, Debug)]
pub struct QuoteInput {
    pub source_amount_to_be_swapped: u64,
    pub amm_config: AmmConfig,
    pub pool_state: PoolState,
    pub observation_state: ObservationState,
    /// Whether token 0 comes in.
    pub zero_for_one: bool,
    pub is_invoked_by_signed_segmenter: bool,
}

impl QuoteInput {
    /// The balance of the token that comes in.
    pub open spec fn spec_source_amount(&self) -> u64 {
        if self.zero_for_one {
            self.pool_state.token_0_vault_amount
        } else {
            self.pool_state.token_1_vault_amount
        }
    }

    /// The balance of the token that goes out.
    pub open spec fn spec_destination_amount(&self) -> u64 {
        if self.zero_for_one {
            self.pool_state.token_1_vault_amount
        } else {
            self.pool_state.token_0_vault_amount
        }
    }

    /// The balances of the token that comes in and of the token that goes
    /// out.
    pub fn swap_amounts(&self) -> (amounts: (u64, u64))
        ensures
            amounts == (self.spec_source_amount(), self.spec_destination_amount()),
    {
        if self.zero_for_one {
            (self.pool_state.token_0_vault_amount, self.pool_state.token_1_vault_amount)
        } else {
            (self.pool_state.token_1_vault_amount, self.pool_state.token_0_vault_amount)
        }
    }
}

/// The price of a swap on the constant-product curve at
/// `current_time_in_unix_timestamp`.
pub fn get_swap_base_input_quote_amount(quote_input: &QuoteInput, current_time_in_unix_timestamp: u64) -> (r: Result<
    SwapResult,
    GammaError,
>)
    ensures
        r == curve_swap_base_input_spec(
            quote_input.source_amount_to_be_swapped as u128,
            quote_input.spec_source_amount() as u128,
            quote_input.spec_destination_amount() as u128,
            quote_input.amm_config,
            current_time_in_unix_timestamp,
            quote_input.observation_state.observations@,
        ),
{
    let (swap_source_amount, swap_destination_amount) = quote_input.swap_amounts();
    CurveCalculator::swap_base_input(
        quote_input.source_amount_to_be_swapped as u128,
        swap_source_amount as u128,
        swap_destination_amount as u128,
        &quote_input.amm_config,
        &quote_input.pool_state,
        current_time_in_unix_timestamp,
        &quote_input.observation_state,
        quote_input.is_invoked_by_signed_segmenter,
    )
}

/// The price of a swap that trades in part at the oracle price, at
/// `current_time_in_unix_timestamp`.
pub fn get_oracle_based_swap_quote_amount(quote_input: &QuoteInput, current_time_in_unix_timestamp: u64) -> (r: Result<
    SwapResult,
    GammaError,
>)
    ensures
        r == oracle_swap_base_input_spec(
            quote_input.source_amount_to_be_swapped as u128,
            quote_input.spec_source_amount() as u128,
            quote_input.spec_destination_amount() as u128,
            quote_input.amm_config,
            quote_input.pool_state,
            current_time_in_unix_timestamp,
            quote_input.observation_state.observations@,
        ),
{
    let (swap_source_amount, swap_destination_amount) = quote_input.swap_amounts();
    OracleBasedSwapCalculator::swap_base_input(
        quote_input.source_amount_to_be_swapped as u128,
        swap_source_amount as u128,
        swap_destination_amount as u128,
        &quote_input.amm_config,
        &quote_input.pool_state,
        current_time_in_unix_timestamp,
        &quote_input.observation_state,
        quote_input.is_invoked_by_signed_segmenter,
    )
}

} // verus!
