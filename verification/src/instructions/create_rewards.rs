use crate::error::GammaError;
use crate::states::reward_info::RewardInfo;
use crate::utils::pubkey::Pubkey;
use vstd::prelude::*;

verus! {

/// Whether a stream from `start_time` to `end_time` can be set up at
/// `current_time`: it starts in the future and ends after it starts.
pub open spec fn reward_time_is_valid(current_time: u64, start_time: u64, end_time: u64) -> bool {
    current_time < start_time < end_time
}

/// Checks the window of a new reward stream, before anything is paid in. A
/// window that has begun or is empty is `InvalidRewardTime`.
pub fn check_reward_time(current_time: u64, start_time: u64, end_time: u64) -> (r: Result<(), GammaError>)
    ensures
        r == if reward_time_is_valid(current_time, start_time, end_time) {
            Ok::<(), GammaError>(())
        } else {
            Err::<(), GammaError>(GammaError::InvalidRewardTime)
        },
{
    if start_time <= current_time {
        return Err(GammaError::InvalidRewardTime);
    }
    if start_time >= end_time {
        return Err(GammaError::InvalidRewardTime);
    }
    Ok(())
}

/// Sets up a reward stream for `pool` that pays out `amount_in_vault` of
/// `mint`, paid in by `rewarded_by`, from `start_time` to `end_time`.
///
/// The stream pays what was paid in evenly over its seconds, the rate
/// rounded down. A window that has begun or is empty is `InvalidRewardTime`
/// and leaves the record as it was.
pub fn create_rewards(
    reward_info: &mut RewardInfo,
    pool: Pubkey,
    mint: Pubkey,
    rewarded_by: Pubkey,
    current_time: u64,
    start_time: u64,
    end_time: u64,
    amount_in_vault: u64,
) -> (r: Result<(), GammaError>)
    ensures
        if reward_time_is_valid(current_time, start_time, end_time) {
            r.is_ok() && *final(reward_info) == (RewardInfo {
                pool,
                start_at: start_time,
                end_rewards_at: end_time,
                mint,
                total_to_disburse: amount_in_vault,
                rewarded_by,
                amount_disbursed: old(reward_info).amount_disbursed,
                emission_per_second: (amount_in_vault as int / (end_time - start_time)) as u64,
            })
        } else {
            r == Err::<(), GammaError>(GammaError::InvalidRewardTime) && *final(reward_info) == *old(reward_info)
        },
{
    match check_reward_time(current_time, start_time, end_time) {
        Ok(()) => {},
        Err(e) => { return Err(e); },
    }
    reward_info.start_at = start_time;
    reward_info.end_rewards_at = end_time;
    reward_info.mint = mint;
    reward_info.total_to_disburse = amount_in_vault;
    reward_info.rewarded_by = rewarded_by;
    reward_info.pool = pool;
    reward_info.emission_per_second = amount_in_vault / (end_time - start_time);
    Ok(())
}

} // verus!
