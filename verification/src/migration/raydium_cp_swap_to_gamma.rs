use crate::curve::calculator::CurveCalculator;
use crate::curve::constant_product::lp_tokens_to_trading_tokens_spec;
use crate::curve::RoundDirection;
use crate::error::GammaError;
use crate::states::pool::{PoolState, PoolStatusBitIndex};
use crate::states::user_pool_liquidity::UserPoolLiquidity;
use vstd::prelude::*;

verus! {

/// What a holder sends to the pool for new liquidity tokens.
#[derive(Clone, Copy, Debug, PartialEq, Eq, Structural)]
pub struct DepositTransfers {
    pub transfer_token_0_amount: u64,
    pub transfer_token_0_fee: u64,
    pub transfer_token_1_amount: u64,
    pub transfer_token_1_fee: u64,
}

/// What [`deposit_amounts`] gives.
pub open spec fn deposit_amounts_spec(
    pool_state: PoolState,
    lp_token_amount: u64,
    total_token_0_amount: u64,
    total_token_1_amount: u64,
) -> Result<(u64, u64), GammaError> {
    if !pool_state.spec_status_by_bit(PoolStatusBitIndex::Deposit) {
        Err(GammaError::NotApproved)
    } else {
        match lp_tokens_to_trading_tokens_spec(
            lp_token_amount as u128,
            pool_state.lp_supply as u128,
            total_token_0_amount as u128,
            total_token_1_amount as u128,
            RoundDirection::Ceiling,
        ) {
            None => Err(GammaError::ZeroTradingTokens),
            Some(amounts) => if amounts.token_0_amount > u64::MAX || amounts.token_1_amount > u64::MAX {
                Err(GammaError::MathOverflow)
            } else {
                Ok((amounts.token_0_amount as u64, amounts.token_1_amount as u64))
            },
        }
    }
}

/// Whether the deposit can be booked.
pub open spec fn deposit_error(
    pool_state: PoolState,
    user_pool_liquidity: UserPoolLiquidity,
    lp_token_amount: u64,
    token_0_amount: u64,
    token_1_amount: u64,
    transfer_token_0_fee: u64,
    transfer_token_1_fee: u64,
    maximum_token_0_amount: u64,
    maximum_token_1_amount: u64,
) -> Option<GammaError> {
    let sent_0 = token_0_amount + transfer_token_0_fee;
    let sent_1 = token_1_amount + transfer_token_1_fee;
    if sent_0 > u64::MAX || sent_1 > u64::MAX {
        Some(GammaError::MathOverflow)
    } else if sent_0 > maximum_token_0_amount || sent_1 > maximum_token_1_amount {
        Some(GammaError::ExceededSlippage)
    } else if pool_state.lp_supply + lp_token_amount > u64::MAX || user_pool_liquidity.token_0_deposited + sent_0
        > u128::MAX || user_pool_liquidity.token_1_deposited + sent_1 > u128::MAX
        || user_pool_liquidity.lp_tokens_owned + lp_token_amount > u128::MAX {
        Some(GammaError::MathOverflow)
    } else {
        None
    }
}

/// What has to reach the pool of its two tokens for `lp_token_amount` new
/// liquidity tokens, rounded up so that the pool is not paid too little.
///
/// `total_token_0_amount` and `total_token_1_amount` are the balances that
/// the pool trades on. The pool has to allow deposits (`NotApproved`). A
/// pool without supply is `ZeroTradingTokens`.
pub fn deposit_amounts(
    pool_state: &PoolState,
    lp_token_amount: u64,
    total_token_0_amount: u64,
    total_token_1_amount: u64,
) -> (r: Result<(u64, u64), GammaError>)
    ensures
        r == deposit_amounts_spec(*pool_state, lp_token_amount, total_token_0_amount, total_token_1_amount),
{
    if !pool_state.get_status_by_bit(PoolStatusBitIndex::Deposit) {
        return Err(GammaError::NotApproved);
    }
    let results = match CurveCalculator::lp_tokens_to_trading_tokens(
        lp_token_amount as u128,
        pool_state.lp_supply as u128,
        total_token_0_amount as u128,
        total_token_1_amount as u128,
        RoundDirection::Ceiling,
    ) {
        Some(v) => v,
        None => { return Err(GammaError::ZeroTradingTokens); },
    };
    if results.token_0_amount > u64::MAX as u128 {
        return Err(GammaError::MathOverflow);
    }
    if results.token_1_amount > u64::MAX as u128 {
        return Err(GammaError::MathOverflow);
    }
    Ok((results.token_0_amount as u64, results.token_1_amount as u64))
}

/// Books the deposit of what was taken out of another pool: the holder gets
/// `lp_token_amount` liquidity tokens for `token_0_amount` and
/// `token_1_amount`, and sends those and the two transfer fees.
///
/// What the holder sends of a token must not exceed the maximum that the
/// holder set (`ExceededSlippage`). The supply of the pool, the holding of
/// the holder and the holder's totals deposited rise. On an error nothing
/// is changed.
pub fn raydium_cp_swap_to_gamma(
    pool_state: &mut PoolState,
    user_pool_liquidity: &mut UserPoolLiquidity,
    lp_token_amount: u64,
    token_0_amount: u64,
    token_1_amount: u64,
    transfer_token_0_fee: u64,
    transfer_token_1_fee: u64,
    maximum_token_0_amount: u64,
    maximum_token_1_amount: u64,
) -> (r: Result<DepositTransfers, GammaError>)
    ensures
        match deposit_error(
            *old(pool_state),
            *old(user_pool_liquidity),
            lp_token_amount,
            token_0_amount,
            token_1_amount,
            transfer_token_0_fee,
            transfer_token_1_fee,
            maximum_token_0_amount,
            maximum_token_1_amount,
        ) {
            Some(e) => {
                &&& r == Err::<DepositTransfers, GammaError>(e)
                &&& *final(pool_state) == *old(pool_state)
                &&& *final(user_pool_liquidity) == *old(user_pool_liquidity)
            },
            None => {
                &&& r == Ok::<DepositTransfers, GammaError>(
                    DepositTransfers {
                        transfer_token_0_amount: (token_0_amount + transfer_token_0_fee) as u64,
                        transfer_token_0_fee,
                        transfer_token_1_amount: (token_1_amount + transfer_token_1_fee) as u64,
                        transfer_token_1_fee,
                    },
                )
                &&& *final(pool_state) == (PoolState {
                    lp_supply: (old(pool_state).lp_supply + lp_token_amount) as u64,
                    ..*old(pool_state)
                })
                &&& *final(user_pool_liquidity) == (UserPoolLiquidity {
                    token_0_deposited: (old(user_pool_liquidity).token_0_deposited + token_0_amount
                        + transfer_token_0_fee) as u128,
                    token_1_deposited: (old(user_pool_liquidity).token_1_deposited + token_1_amount
                        + transfer_token_1_fee) as u128,
                    lp_tokens_owned: (old(user_pool_liquidity).lp_tokens_owned + lp_token_amount) as u128,
                    ..*old(user_pool_liquidity)
                })
            },
        },
{
    let transfer_token_0_amount = match token_0_amount.checked_add(transfer_token_0_fee) {
        Some(v) => v,
        None => { return Err(GammaError::MathOverflow); },
    };
    let transfer_token_1_amount = match token_1_amount.checked_add(transfer_token_1_fee) {
        Some(v) => v,
        None => { return Err(GammaError::MathOverflow); },
    };
    if transfer_token_0_amount > maximum_token_0_amount || transfer_token_1_amount > maximum_token_1_amount {
        return Err(GammaError::ExceededSlippage);
    }
    let lp_supply = match pool_state.lp_supply.checked_add(lp_token_amount) {
        Some(v) => v,
        None => { return Err(GammaError::MathOverflow); },
    };
    let token_0_deposited = match user_pool_liquidity.token_0_deposited.checked_add(
        transfer_token_0_amount as u128,
    ) {
        Some(v) => v,
        None => { return Err(GammaError::MathOverflow); },
    };
    let token_1_deposited = match user_pool_liquidity.token_1_deposited.checked_add(
        transfer_token_1_amount as u128,
    ) {
        Some(v) => v,
        None => { return Err(GammaError::MathOverflow); },
    };
    let lp_tokens_owned = match user_pool_liquidity.lp_tokens_owned.checked_add(lp_token_amount as u128) {
        Some(v) => v,
        None => { return Err(GammaError::MathOverflow); },
    };
    pool_state.lp_supply = lp_supply;
    user_pool_liquidity.token_0_deposited = token_0_deposited;
    user_pool_liquidity.token_1_deposited = token_1_deposited;
    user_pool_liquidity.lp_tokens_owned = lp_tokens_owned;
    Ok(
        DepositTransfers {
            transfer_token_0_amount,
            transfer_token_0_fee,
            transfer_token_1_amount,
            transfer_token_1_fee,
        },
    )
}

} // verus!
