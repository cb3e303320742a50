use vstd::prelude::*;

pub mod calculator;
pub mod constant_product;
pub mod oracle_based_swap_calculator;

verus! {

/// Which token a swap takes in.
#[derive(Clone, Copy, Debug, PartialEq, Eq, Structural)]
pub enum TradeDirection {
    /// Token 0 comes in, token 1 goes out.
    ZeroForOne,
    /// Token 1 comes in, token 0 goes out.
    OneForZero,
}

/// Which way a proportional share is rounded.
#[derive(Clone, Copy, Debug, PartialEq, Eq, Structural)]
pub enum RoundDirection {
    /// Down: for a withdrawal, so that those who stay lose nothing.
    Floor,
    /// Up: for a deposit, so that the pool is not paid too little.
    Ceiling,
}

/// The two token amounts that an amount of liquidity tokens stands for.
#[derive(Clone, Copy, Debug, PartialEq, Eq, Structural)]
pub struct TradingTokenResult {
    pub token_0_amount: u128,
    pub token_1_amount: u128,
}

/// What a swap does to the pool and what it costs.
#[derive(Clone, Copy, Debug, PartialEq, Eq, Structural)]
pub struct SwapResult {
    /// The balance of the token that came in, after the swap.
    pub new_swap_source_amount: u128,
    /// The balance of the token that went out, after the swap.
    pub new_swap_destination_amount: u128,
    /// What came in, the fee included.
    pub source_amount_swapped: u128,
    /// What went out.
    pub destination_amount_swapped: u128,
    /// The trade fee, in the token that came in.
    pub dynamic_fee: u128,
    /// The part of the trade fee that goes to the protocol.
    pub protocol_fee: u128,
    /// The part of the trade fee that goes to the fund.
    pub fund_fee: u128,
    /// The trade fee rate that was charged, in parts of the fee denominator.
    pub dynamic_fee_rate: u64,
}

} // verus!
