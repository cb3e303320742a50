use crate::error::GammaError;
use crate::fees::{FEE_RATE_DENOMINATOR_VALUE, MAX_SHARED_WITH_KAMINO_RATE};
use crate::states::config::AmmConfig;
use crate::states::pool::PoolState;
use crate::states::reward_info::RewardInfo;
use crate::utils::pubkey::Pubkey;
use vstd::prelude::*;

verus! {

/// The settings of a pool that can be changed, by the number that names
/// each.
pub const PARAM_POOL_STATUS: u32 = 0;

pub const PARAM_MAX_TRADE_FEE_RATE: u32 = 1;

pub const PARAM_VOLATILITY_FACTOR: u32 = 2;

pub const PARAM_MAX_SHARED_TOKEN0: u32 = 3;

pub const PARAM_MAX_SHARED_TOKEN1: u32 = 4;

pub const PARAM_OPEN_TIME: u32 = 5;

pub const PARAM_ACCEPTABLE_PRICE_DIFFERENCE: u32 = 6;

pub const PARAM_MAX_AMOUNT_SWAPPABLE_AT_ORACLE_PRICE: u32 = 7;

pub const PARAM_MIN_TRADE_RATE_AT_ORACLE_PRICE: u32 = 8;

pub const PARAM_PRICE_PREMIUM_FOR_SWAP_AT_ORACLE_PRICE: u32 = 9;

/// The highest values that the settings for swaps at the oracle price may
/// be given, each in parts of the fee denominator.
#[derive(Clone, Copy, Debug, PartialEq, Eq, Structural)]
pub struct OracleSwapLimits {
    pub max_oracle_price_difference: u64,
    pub max_amount_swappable_at_oracle_price: u64,
    pub max_oracle_price_premium: u64,
}

/// Whether the second administrator of the fee schedule may change the
/// setting: those of lending and of swaps at the oracle price.
pub open spec fn open_to_secondary_admin(param: u32) -> bool {
    param == PARAM_MAX_SHARED_TOKEN0 || param == PARAM_MAX_SHARED_TOKEN1 || param
        == PARAM_ACCEPTABLE_PRICE_DIFFERENCE || param == PARAM_MAX_AMOUNT_SWAPPABLE_AT_ORACLE_PRICE || param
        == PARAM_MIN_TRADE_RATE_AT_ORACLE_PRICE || param == PARAM_PRICE_PREMIUM_FOR_SWAP_AT_ORACLE_PRICE
}

/// Whether `authority` may change the setting `param` of a pool under
/// `amm_config`: the administrator may change every setting, the second
/// administrator of the fee schedule those of lending and of swaps at the
/// oracle price.
pub fn check_authority(authority: &Pubkey, amm_config: &AmmConfig, param: u32, admin: &Pubkey) -> (allowed: bool)
    ensures
        allowed == (*authority == *admin || (open_to_secondary_admin(param) && *authority
            == amm_config.secondary_admin)),
{
    let open = param == PARAM_MAX_SHARED_TOKEN0 || param == PARAM_MAX_SHARED_TOKEN1 || param
        == PARAM_ACCEPTABLE_PRICE_DIFFERENCE || param == PARAM_MAX_AMOUNT_SWAPPABLE_AT_ORACLE_PRICE || param
        == PARAM_MIN_TRADE_RATE_AT_ORACLE_PRICE || param == PARAM_PRICE_PREMIUM_FOR_SWAP_AT_ORACLE_PRICE;
    if open {
        return *authority == amm_config.secondary_admin || *authority == *admin;
    }
    *authority == *admin
}

/// Whether `authority` may give a pool under `amm_config` an oracle price,
/// or correct the books of a reward stream: the administrator and the
/// second administrator of the fee schedule may.
pub fn check_oracle_authority(authority: &Pubkey, amm_config: &AmmConfig, admin: &Pubkey) -> (allowed: bool)
    ensures
        allowed == (*authority == amm_config.secondary_admin || *authority == *admin),
{
    *authority == amm_config.secondary_admin || *authority == *admin
}

/// The pool after the setting `param` was given `value`.
pub open spec fn pool_after_update(
    pool_state: PoolState,
    param: u32,
    value: u64,
    block_timestamp: u64,
    epoch: u64,
    limits: OracleSwapLimits,
) -> Result<PoolState, GammaError> {
    if param == PARAM_POOL_STATUS {
        Ok(PoolState { status: value as u8, recent_epoch: epoch, ..pool_state })
    } else if param == PARAM_MAX_TRADE_FEE_RATE {
        if value >= FEE_RATE_DENOMINATOR_VALUE {
            Err(GammaError::RequireGtViolated)
        } else {
            Ok(PoolState { max_trade_fee_rate: value, ..pool_state })
        }
    } else if param == PARAM_VOLATILITY_FACTOR {
        Ok(PoolState { volatility_factor: value, ..pool_state })
    } else if param == PARAM_MAX_SHARED_TOKEN0 {
        if value > MAX_SHARED_WITH_KAMINO_RATE {
            Err(GammaError::RequireGteViolated)
        } else {
            Ok(PoolState { max_shared_token0: value, ..pool_state })
        }
    } else if param == PARAM_MAX_SHARED_TOKEN1 {
        if value > MAX_SHARED_WITH_KAMINO_RATE {
            Err(GammaError::RequireGteViolated)
        } else {
            Ok(PoolState { max_shared_token1: value, ..pool_state })
        }
    } else if param == PARAM_OPEN_TIME {
        Ok(PoolState { open_time: block_timestamp, ..pool_state })
    } else if param == PARAM_ACCEPTABLE_PRICE_DIFFERENCE {
        if value > limits.max_oracle_price_difference {
            Err(GammaError::RequireGteViolated)
        } else {
            Ok(PoolState { acceptable_price_difference: value as u32, ..pool_state })
        }
    } else if param == PARAM_MAX_AMOUNT_SWAPPABLE_AT_ORACLE_PRICE {
        if value > limits.max_amount_swappable_at_oracle_price {
            Err(GammaError::RequireGteViolated)
        } else {
            Ok(PoolState { max_amount_swappable_at_oracle_price: value as u32, ..pool_state })
        }
    } else if param == PARAM_MIN_TRADE_RATE_AT_ORACLE_PRICE {
        if value > FEE_RATE_DENOMINATOR_VALUE {
            Err(GammaError::RequireGteViolated)
        } else {
            Ok(PoolState { min_trade_rate_at_oracle_price: value as u32, ..pool_state })
        }
    } else if param == PARAM_PRICE_PREMIUM_FOR_SWAP_AT_ORACLE_PRICE {
        if value > limits.max_oracle_price_premium {
            Err(GammaError::RequireGteViolated)
        } else {
            Ok(PoolState { price_premium_for_swap_at_oracle_price: value as u32, ..pool_state })
        }
    } else {
        Err(GammaError::InvalidInput)
    }
}

/// Gives the setting `param` of a pool the value `value`.
///
/// The settings, by their numbers: 0 the status byte, of which the low
/// eight bits of the value are taken; 1 the highest trade fee rate, below
/// the fee denominator; 2 the volatility factor; 3 and 4 the share of token
/// 0 and of token 1 that may be lent out, at most half; 5 the opening time,
/// which is set to now; 6 to 9 the settings for swaps at the oracle price,
/// each within its limit. Any other number is `InvalidInput`. A value out of
/// range leaves the pool as it was.
pub fn update_pool(
    pool_state: &mut PoolState,
    param: u32,
    value: u64,
    block_timestamp: u64,
    epoch: u64,
    limits: &OracleSwapLimits,
) -> (r: Result<(), GammaError>)
    ensures
        match pool_after_update(*old(pool_state), param, value, block_timestamp, epoch, *limits) {
            Ok(pool) => r.is_ok() && *final(pool_state) == pool,
            Err(e) => r == Err::<(), GammaError>(e) && *final(pool_state) == *old(pool_state),
        },
{
    if param == PARAM_POOL_STATUS {
        update_pool_status(pool_state, #[verifier::truncate] (value as u8), epoch)
    } else if param == PARAM_MAX_TRADE_FEE_RATE {
        update_max_trade_fee_rate(pool_state, value)
    } else if param == PARAM_VOLATILITY_FACTOR {
        update_volatility_factor(pool_state, value)
    } else if param == PARAM_MAX_SHARED_TOKEN0 {
        update_max_shared_token0(pool_state, value)
    } else if param == PARAM_MAX_SHARED_TOKEN1 {
        update_max_shared_token1(pool_state, value)
    } else if param == PARAM_OPEN_TIME {
        update_open_time(pool_state, block_timestamp)
    } else if param == PARAM_ACCEPTABLE_PRICE_DIFFERENCE {
        update_acceptable_price_difference(pool_state, value, limits.max_oracle_price_difference)
    } else if param == PARAM_MAX_AMOUNT_SWAPPABLE_AT_ORACLE_PRICE {
        update_max_amount_swappable_at_oracle_price(
            pool_state,
            value,
            limits.max_amount_swappable_at_oracle_price,
        )
    } else if param == PARAM_MIN_TRADE_RATE_AT_ORACLE_PRICE {
        update_min_trade_rate_at_oracle_price(pool_state, value)
    } else if param == PARAM_PRICE_PREMIUM_FOR_SWAP_AT_ORACLE_PRICE {
        update_price_premium_for_swap_at_oracle_price(pool_state, value, limits.max_oracle_price_premium)
    } else {
        Err(GammaError::InvalidInput)
    }
}

/// Sets how far the pool's own price may be from the oracle price for a
/// swap to trade at the oracle price.
pub fn update_acceptable_price_difference(pool_state: &mut PoolState, value: u64, limit: u64) -> (r: Result<
    (),
    GammaError,
>)
    ensures
        if value > limit {
            r == Err::<(), GammaError>(GammaError::RequireGteViolated) && *final(pool_state) == *old(pool_state)
        } else {
            r.is_ok() && *final(pool_state) == (PoolState {
                acceptable_price_difference: value as u32,
                ..*old(pool_state)
            })
        },
{
    if value > limit {
        return Err(GammaError::RequireGteViolated);
    }
    pool_state.acceptable_price_difference = #[verifier::truncate] (value as u32);
    Ok(())
}

/// Sets the share of the input balance that may trade at the oracle price.
pub fn update_max_amount_swappable_at_oracle_price(pool_state: &mut PoolState, value: u64, limit: u64) -> (r: Result<
    (),
    GammaError,
>)
    ensures
        if value > limit {
            r == Err::<(), GammaError>(GammaError::RequireGteViolated) && *final(pool_state) == *old(pool_state)
        } else {
            r.is_ok() && *final(pool_state) == (PoolState {
                max_amount_swappable_at_oracle_price: value as u32,
                ..*old(pool_state)
            })
        },
{
    if value > limit {
        return Err(GammaError::RequireGteViolated);
    }
    pool_state.max_amount_swappable_at_oracle_price = #[verifier::truncate] (value as u32);
    Ok(())
}

/// Sets the least fee rate of the part of a swap that trades at the oracle
/// price: at most the whole fee denominator.
pub fn update_min_trade_rate_at_oracle_price(pool_state: &mut PoolState, value: u64) -> (r: Result<(), GammaError>)
    ensures
        if value > FEE_RATE_DENOMINATOR_VALUE {
            r == Err::<(), GammaError>(GammaError::RequireGteViolated) && *final(pool_state) == *old(pool_state)
        } else {
            r.is_ok() && *final(pool_state) == (PoolState {
                min_trade_rate_at_oracle_price: value as u32,
                ..*old(pool_state)
            })
        },
{
    if value > FEE_RATE_DENOMINATOR_VALUE {
        return Err(GammaError::RequireGteViolated);
    }
    pool_state.min_trade_rate_at_oracle_price = value as u32;
    Ok(())
}

/// Sets the premium over the oracle price at which the pool trades.
pub fn update_price_premium_for_swap_at_oracle_price(pool_state: &mut PoolState, value: u64, limit: u64) -> (r: Result<
    (),
    GammaError,
>)
    ensures
        if value > limit {
            r == Err::<(), GammaError>(GammaError::RequireGteViolated) && *final(pool_state) == *old(pool_state)
        } else {
            r.is_ok() && *final(pool_state) == (PoolState {
                price_premium_for_swap_at_oracle_price: value as u32,
                ..*old(pool_state)
            })
        },
{
    if value > limit {
        return Err(GammaError::RequireGteViolated);
    }
    pool_state.price_premium_for_swap_at_oracle_price = #[verifier::truncate] (value as u32);
    Ok(())
}

/// Opens the pool now.
pub fn update_open_time(pool_state: &mut PoolState, block_timestamp: u64) -> (r: Result<(), GammaError>)
    ensures
        r.is_ok(),
        *final(pool_state) == (PoolState { open_time: block_timestamp, ..*old(pool_state) }),
{
    pool_state.open_time = block_timestamp;
    Ok(())
}

/// Sets the highest trade fee rate of the pool, below the fee denominator.
pub fn update_max_trade_fee_rate(pool_state: &mut PoolState, max_trade_fee_rate: u64) -> (r: Result<
    (),
    GammaError,
>)
    ensures
        if max_trade_fee_rate >= FEE_RATE_DENOMINATOR_VALUE {
            r == Err::<(), GammaError>(GammaError::RequireGtViolated) && *final(pool_state) == *old(pool_state)
        } else {
            r.is_ok() && *final(pool_state) == (PoolState { max_trade_fee_rate, ..*old(pool_state) })
        },
{
    if max_trade_fee_rate >= FEE_RATE_DENOMINATOR_VALUE {
        return Err(GammaError::RequireGtViolated);
    }
    pool_state.max_trade_fee_rate = max_trade_fee_rate;
    Ok(())
}

/// Sets the share of token 0 that may be lent out, at most half.
pub fn update_max_shared_token0(pool_state: &mut PoolState, max_shared_token0: u64) -> (r: Result<(), GammaError>)
    ensures
        if max_shared_token0 > MAX_SHARED_WITH_KAMINO_RATE {
            r == Err::<(), GammaError>(GammaError::RequireGteViolated) && *final(pool_state) == *old(pool_state)
        } else {
            r.is_ok() && *final(pool_state) == (PoolState { max_shared_token0, ..*old(pool_state) })
        },
{
    if max_shared_token0 > MAX_SHARED_WITH_KAMINO_RATE {
        return Err(GammaError::RequireGteViolated);
    }
    if max_shared_token0 >= FEE_RATE_DENOMINATOR_VALUE {
        return Err(GammaError::RequireGtViolated);
    }
    pool_state.max_shared_token0 = max_shared_token0;
    Ok(())
}

/// Sets the share of token 1 that may be lent out, at most half.
pub fn update_max_shared_token1(pool_state: &mut PoolState, max_shared_token1: u64) -> (r: Result<(), GammaError>)
    ensures
        if max_shared_token1 > MAX_SHARED_WITH_KAMINO_RATE {
            r == Err::<(), GammaError>(GammaError::RequireGteViolated) && *final(pool_state) == *old(pool_state)
        } else {
            r.is_ok() && *final(pool_state) == (PoolState { max_shared_token1, ..*old(pool_state) })
        },
{
    if max_shared_token1 > MAX_SHARED_WITH_KAMINO_RATE {
        return Err(GammaError::RequireGteViolated);
    }
    if max_shared_token1 >= FEE_RATE_DENOMINATOR_VALUE {
        return Err(GammaError::RequireGtViolated);
    }
    pool_state.max_shared_token1 = max_shared_token1;
    Ok(())
}

/// Sets the volatility factor of the pool.
pub fn update_volatility_factor(pool_state: &mut PoolState, volatility_factor: u64) -> (r: Result<(), GammaError>)
    ensures
        r.is_ok(),
        *final(pool_state) == (PoolState { volatility_factor, ..*old(pool_state) }),
{
    pool_state.volatility_factor = volatility_factor;
    Ok(())
}

/// Replaces the status byte of the pool and notes the epoch.
pub fn update_pool_status(pool_state: &mut PoolState, status: u8, epoch: u64) -> (r: Result<(), GammaError>)
    ensures
        r.is_ok(),
        *final(pool_state) == (PoolState { status, recent_epoch: epoch, ..*old(pool_state) }),
{
    pool_state.set_status(status);
    pool_state.recent_epoch = epoch;
    Ok(())
}

/// Gives the pool the price of token 0 in token 1, scaled by 10^9, as it
/// stands at `block_timestamp`.
pub fn oracle_price_update(pool_state: &mut PoolState, oracle_price_token_0_by_token_1: u128, block_timestamp: u64) -> (r: Result<
    (),
    GammaError,
>)
    ensures
        r.is_ok(),
        *final(pool_state) == (PoolState {
            oracle_price_token_0_by_token_1,
            oracle_price_updated_at: block_timestamp,
            ..*old(pool_state)
        }),
{
    pool_state.oracle_price_token_0_by_token_1 = oracle_price_token_0_by_token_1;
    pool_state.oracle_price_updated_at = block_timestamp;
    Ok(())
}

/// Notes what a reward stream has paid out so far.
pub fn migrate_reward_info(reward_info: &mut RewardInfo, amount_disbursed: u64) -> (r: Result<(), GammaError>)
    ensures
        r.is_ok(),
        *final(reward_info) == (RewardInfo { amount_disbursed, ..*old(reward_info) }),
{
    reward_info.amount_disbursed = amount_disbursed;
    Ok(())
}

} // verus!
