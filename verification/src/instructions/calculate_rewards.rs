use crate::error::GammaError;
use crate::states::global_reward_info::{slot_of, snapshots_after_pruning, GlobalRewardInfo};
use crate::states::pool::PoolState;
use crate::states::reward_info::RewardInfo;
use crate::states::user_pool_liquidity::UserPoolLiquidity;
use crate::states::user_reward_info::{
    changes_after_removal, snapshots_with_covered, ClaimOutcome, GlobalUserLpRecentChange, UserRewardInfo,
};
use crate::utils::pubkey::Pubkey;
use vstd::prelude::*;

verus! {

/// The table of streams after the stream in `slot` has left it, where it
/// has ended.
pub open spec fn table_after_removal(table: Seq<Pubkey>, slot: Option<int>, reward_is_active: bool) -> Seq<Pubkey> {
    match slot {
        Some(i) => if reward_is_active {
            table
        } else {
            table.update(i, Pubkey::spec_default())
        },
        None => table,
    }
}

/// The start times after the stream in `slot` has left the table, where it
/// has ended.
pub open spec fn start_times_after_removal(
    start_times: Seq<Option<u64>>,
    slot: Option<int>,
    reward_is_active: bool,
) -> Seq<Option<u64>> {
    match slot {
        Some(i) => if reward_is_active {
            start_times
        } else {
            start_times.update(i, None)
        },
        None => start_times,
    }
}

/// What the computation of the holder's reward gives, where the stream is
/// in the table: the outcome of the walk, or nothing where it fails.
pub open spec fn outcome_of(
    user_reward_info: UserRewardInfo,
    user_pool_liquidity: UserPoolLiquidity,
    pool_state: PoolState,
    global_user_lp_recent_change: &GlobalUserLpRecentChange,
    global_reward_info: &GlobalRewardInfo,
    slot: int,
    reward_info: &RewardInfo,
    current_time: u64,
) -> Option<ClaimOutcome> {
    user_reward_info.spec_claim(
        user_pool_liquidity.lp_tokens_owned as u64,
        pool_state.lp_supply,
        global_user_lp_recent_change,
        global_reward_info,
        slot,
        reward_info,
        current_time,
    )
}

/// Brings the reward of a holder for one stream up to `current_time`, and
/// clears away what no stream needs any more.
///
/// A holder whose reward is computed up to now or later is left alone. Else
/// the reward is computed as
/// [`UserRewardInfo::calculate_claimable_rewards`] does, for the low 64
/// bits of the holder's liquidity tokens; a failure there is `MathOverflow`
/// and changes nothing. Then the stream leaves the table of the pool if
/// `reward_is_active` is false, the oldest snapshots of the pool that no
/// stream needs are dropped, and so are the oldest changes of the holder
/// that every slot is computed past.
pub fn calculate_rewards(
    user_reward_info: &mut UserRewardInfo,
    user_pool_liquidity: &UserPoolLiquidity,
    pool_state: &PoolState,
    global_user_lp_recent_change: &mut GlobalUserLpRecentChange,
    global_reward_info: &mut GlobalRewardInfo,
    reward_key: &Pubkey,
    reward_info: &RewardInfo,
    reward_is_active: bool,
    current_time: u64,
) -> (r: Result<(), GammaError>)
    ensures
        final(user_reward_info).user_pool_lp_account == old(user_reward_info).user_pool_lp_account,
        final(user_reward_info).reward_info == old(user_reward_info).reward_info,
        final(user_reward_info).total_claimed == old(user_reward_info).total_claimed,
        ({
            let slot = slot_of(old(global_reward_info).active_boosted_reward_info@, *reward_key);
            let outcome = if slot.is_some() {
                outcome_of(
                    *old(user_reward_info),
                    *user_pool_liquidity,
                    *pool_state,
                    old(global_user_lp_recent_change),
                    old(global_reward_info),
                    slot.unwrap(),
                    reward_info,
                    current_time,
                )
            } else {
                None
            };
            let table = table_after_removal(
                old(global_reward_info).active_boosted_reward_info@,
                slot,
                reward_is_active,
            );
            let start_times = start_times_after_removal(
                old(global_reward_info).start_times@,
                slot,
                reward_is_active,
            );
            if old(user_reward_info).rewards_last_calculated_at >= current_time || (slot.is_some()
                && outcome.is_none()) {
                &&& r == if old(user_reward_info).rewards_last_calculated_at >= current_time {
                    Ok::<(), GammaError>(())
                } else {
                    Err::<(), GammaError>(GammaError::MathOverflow)
                }
                &&& *final(user_reward_info) == *old(user_reward_info)
                &&& final(global_user_lp_recent_change).rewards_calculated_upto == old(global_user_lp_recent_change).rewards_calculated_upto
                &&& final(global_user_lp_recent_change).lp_snapshots@ == old(global_user_lp_recent_change).lp_snapshots@
                &&& final(global_reward_info).active_boosted_reward_info == old(global_reward_info).active_boosted_reward_info
                &&& final(global_reward_info).start_times == old(global_reward_info).start_times
                &&& final(global_reward_info).reward_calculated_for_lp_amount == old(global_reward_info).reward_calculated_for_lp_amount
                &&& final(global_reward_info).snapshots@ == old(global_reward_info).snapshots@
            } else {
                &&& r.is_ok()
                &&& final(global_reward_info).active_boosted_reward_info@ == table
                &&& final(global_reward_info).start_times@ == start_times
                &&& match slot {
                    None => {
                        &&& *final(user_reward_info) == *old(user_reward_info)
                        &&& final(global_user_lp_recent_change).rewards_calculated_upto == old(global_user_lp_recent_change).rewards_calculated_upto
                        &&& final(global_reward_info).reward_calculated_for_lp_amount == old(global_reward_info).reward_calculated_for_lp_amount
                        &&& final(global_reward_info).snapshots@ == snapshots_after_pruning(
                            table,
                            start_times,
                            old(global_reward_info).snapshots@,
                        )
                    },
                    Some(i) => {
                        &&& final(user_reward_info).total_rewards == outcome.unwrap().total_rewards
                        &&& final(user_reward_info).rewards_last_calculated_at
                            == outcome.unwrap().rewards_last_calculated_at
                        &&& final(global_user_lp_recent_change).rewards_calculated_upto@ == old(global_user_lp_recent_change).rewards_calculated_upto@.update(i, current_time)
                        &&& final(global_reward_info).reward_calculated_for_lp_amount@ == old(global_reward_info).reward_calculated_for_lp_amount@.update(i, outcome.unwrap().pool_covered)
                        &&& final(global_reward_info).snapshots@ == snapshots_after_pruning(
                            table,
                            start_times,
                            snapshots_with_covered(
                                old(global_reward_info).snapshots@,
                                i,
                                outcome.unwrap().covered,
                            ),
                        )
                    },
                }
                &&& final(global_user_lp_recent_change).lp_snapshots@ == changes_after_removal(
                    table,
                    final(global_user_lp_recent_change).rewards_calculated_upto@,
                    old(global_user_lp_recent_change).lp_snapshots@,
                )
            }
        }),
{
    if user_reward_info.rewards_last_calculated_at >= current_time {
        return Ok(());
    }
    match user_reward_info.calculate_claimable_rewards(
        #[verifier::truncate] (user_pool_liquidity.lp_tokens_owned as u64),
        pool_state.lp_supply,
        global_user_lp_recent_change,
        global_reward_info,
        reward_key,
        reward_info,
        current_time,
    ) {
        Ok(()) => {},
        Err(e) => { return Err(e); },
    }
    proof {
        let slot = slot_of(old(global_reward_info).active_boosted_reward_info@, *reward_key);
        if slot.is_some() {
            let outcome = outcome_of(
                *old(user_reward_info),
                *user_pool_liquidity,
                *pool_state,
                old(global_user_lp_recent_change),
                old(global_reward_info),
                slot.unwrap(),
                reward_info,
                current_time,
            );
            assert(global_reward_info.snapshots@ =~= snapshots_with_covered(
                old(global_reward_info).snapshots@,
                slot.unwrap(),
                outcome.unwrap().covered,
            ));
        }
    }
    global_reward_info.remove_inactive_rewards(reward_key, reward_is_active);
    global_reward_info.remove_all_inactive_snapshots();
    global_user_lp_recent_change.remove_in_active_snapshots(global_reward_info)
}

} // verus!
