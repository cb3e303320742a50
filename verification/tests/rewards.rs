use gamma::error::GammaError;
use gamma::instructions::calculate_rewards::calculate_rewards;
use gamma::instructions::create_rewards::{check_reward_time, create_rewards};
use gamma::states::global_reward_info::{GlobalRewardInfo, Snapshot, MAX_REWARDS};
use gamma::states::pool::PoolState;
use gamma::states::reward_info::RewardInfo;
use gamma::states::user_pool_liquidity::UserPoolLiquidity;
use gamma::states::user_reward_info::{GlobalUserLpRecentChange, GlobalUserLpSnapshot, UserRewardInfo};
use gamma::utils::decimal::Dec;
use gamma::utils::pubkey::Pubkey;

fn key(n: u8) -> Pubkey {
    Pubkey::new_from_array([n; 32])
}

fn stream(start_at: u64, end_rewards_at: u64, emission_per_second: u64) -> RewardInfo {
    RewardInfo {
        pool: key(9),
        start_at,
        end_rewards_at,
        mint: key(8),
        total_to_disburse: emission_per_second * (end_rewards_at - start_at),
        rewarded_by: key(7),
        amount_disbursed: 0,
        emission_per_second,
    }
}

fn holder() -> UserRewardInfo {
    UserRewardInfo {
        user_pool_lp_account: key(5),
        reward_info: key(1),
        total_claimed: 0,
        total_rewards: 0,
        rewards_last_calculated_at: 0,
    }
}

#[test]
fn a_fourth_reward_stream_is_refused() {
    let mut global = GlobalRewardInfo::new();
    assert!(!global.has_any_active_rewards());
    assert_eq!(MAX_REWARDS, 3);
    assert_eq!(global.add_new_active_reward(key(1), 100), Ok(()));
    assert!(global.has_any_active_rewards());
    assert_eq!(global.add_new_active_reward(key(2), 200), Ok(()));
    assert_eq!(global.add_new_active_reward(key(3), 300), Ok(()));
    assert_eq!(
        global.add_new_active_reward(key(4), 400),
        Err(GammaError::MaxRewardsReached)
    );
    assert_eq!(global.active_boosted_reward_info, [key(1), key(2), key(3)]);
    assert_eq!(global.start_times, [Some(100), Some(200), Some(300)]);
    assert_eq!(global.reward_slot(&key(2)), Some(1));
    assert_eq!(global.reward_slot(&key(4)), None);
    assert_eq!(global.min_start_time(), 100);
}

#[test]
fn a_freed_slot_is_taken_again() {
    let mut global = GlobalRewardInfo::new();
    global.add_new_active_reward(key(1), 100).unwrap();
    global.add_new_active_reward(key(2), 200).unwrap();
    global.reward_calculated_for_lp_amount[0] = 77;
    // a stream that still runs stays
    global.remove_inactive_rewards(&key(1), true);
    assert_eq!(global.active_boosted_reward_info[0], key(1));
    global.remove_inactive_rewards(&key(1), false);
    assert_eq!(global.active_boosted_reward_info[0], Pubkey::default());
    assert_eq!(global.start_times[0], None);
    assert_eq!(global.min_start_time(), 200);
    global.add_new_active_reward(key(3), 300).unwrap();
    assert_eq!(global.active_boosted_reward_info[0], key(3));
    assert_eq!(global.start_times[0], Some(300));
    assert_eq!(global.reward_calculated_for_lp_amount[0], 0);
}

#[test]
fn snapshots_are_taken_only_with_a_stream() {
    let mut global = GlobalRewardInfo::new();
    global.append_snapshot(1_000, 50);
    assert_eq!(global.snapshots.len(), 0);
    global.add_new_active_reward(key(1), 100).unwrap();
    global.reward_calculated_for_lp_amount[0] = 40;
    global.append_snapshot(1_000, 150);
    assert_eq!(global.snapshots.len(), 1);
    assert_eq!(global.snapshots[0].total_lp_amount, 1_000);
    assert_eq!(global.snapshots[0].timestamp, 150);
    assert_eq!(global.snapshots[0].reward_calculated_for_lp_amount, [40, 0, 0]);
}

fn snapshot(timestamp: u64, total_lp_amount: u64, covered: [u64; 3]) -> Snapshot {
    Snapshot {
        reward_calculated_for_lp_amount: covered,
        total_lp_amount,
        timestamp,
    }
}

#[test]
fn pruning_drops_the_oldest_snapshots_that_are_not_needed() {
    let mut global = GlobalRewardInfo::new();
    global.add_new_active_reward(key(1), 100).unwrap();
    global.add_new_active_reward(key(2), 200).unwrap();
    global.snapshots = vec![
        snapshot(50, 1_000, [0, 0, 0]),          // older than the earliest stream
        snapshot(120, 1_000, [1_000, 1_000, 5]), // wholly computed for both streams
        snapshot(150, 1_000, [1_000, 400, 0]),   // the second stream still needs it
        snapshot(160, 1_000, [1_000, 1_000, 0]), // not needed, but behind one that is
    ];
    global.remove_all_inactive_snapshots();
    assert_eq!(global.snapshots.len(), 2);
    assert_eq!(global.snapshots[0].timestamp, 150);
    assert_eq!(global.snapshots[1].timestamp, 160);
    // the front is not older than the earliest stream and a stream needs it
    assert!(global.snapshots[0].timestamp >= global.min_start_time());
    assert!(global.keeps_snapshot(&global.snapshots[0], global.min_start_time()));
    // pruning again changes nothing
    global.remove_all_inactive_snapshots();
    assert_eq!(global.snapshots.len(), 2);
}

#[test]
fn pruning_without_a_stream_drops_everything() {
    let mut global = GlobalRewardInfo::new();
    global.snapshots = vec![snapshot(150, 1_000, [0, 0, 0])];
    global.remove_all_inactive_snapshots();
    assert_eq!(global.snapshots.len(), 0);

    let mut global = GlobalRewardInfo::new();
    global.add_new_active_reward(key(1), 100).unwrap();
    global.start_times[0] = None;
    global.snapshots = vec![snapshot(150, 1_000, [0, 0, 0])];
    global.remove_all_inactive_snapshots();
    assert_eq!(global.snapshots.len(), 0);
}

#[test]
fn the_whole_supply_earns_the_whole_emission() {
    let reward = stream(100, 200, 5);
    for timestamps in [vec![], vec![150], vec![150, 220], vec![90, 100, 130, 130, 200, 201]] {
        let mut global = GlobalRewardInfo::new();
        global.add_new_active_reward(key(1), 100).unwrap();
        for t in &timestamps {
            global.append_snapshot(1_000, *t);
        }
        let mut change = GlobalUserLpRecentChange::new();
        let mut user = holder();
        assert_eq!(
            user.calculate_claimable_rewards(1_000, 1_000, &mut change, &mut global, &key(1), &reward, 250),
            Ok(())
        );
        assert_eq!(user.total_rewards, 5 * (200 - 100));
        assert_eq!(user.rewards_last_calculated_at, 200);
        assert_eq!(user.get_total_claimable_rewards(), 500);
        assert_eq!(change.rewards_calculated_upto, [250, 0, 0]);
        assert_eq!(change.lp_snapshots.len(), 0);
    }
}

#[test]
fn a_walk_counts_the_snapshots_it_passes() {
    let reward = stream(100, 200, 5);
    let mut global = GlobalRewardInfo::new();
    global.add_new_active_reward(key(1), 100).unwrap();
    global.append_snapshot(1_000, 90);
    global.append_snapshot(1_000, 150);
    let mut change = GlobalUserLpRecentChange::new();
    let mut user = holder();
    // a quarter of the supply, computed at 180
    user.calculate_claimable_rewards(250, 1_000, &mut change, &mut global, &key(1), &reward, 180)
        .unwrap();
    // 5 * 50 * 250 / 1000 = 62.5 and 5 * 30 * 250 / 1000 = 37.5, each rounded down
    assert_eq!(user.total_rewards, 62 + 37);
    assert_eq!(user.rewards_last_calculated_at, 180);
    // the snapshot before the start is passed over, the one at 150 counts the holder
    assert_eq!(global.snapshots[0].reward_calculated_for_lp_amount, [0, 0, 0]);
    assert_eq!(global.snapshots[1].reward_calculated_for_lp_amount, [250, 0, 0]);
    assert_eq!(global.reward_calculated_for_lp_amount, [250, 0, 0]);
    assert_eq!(change.rewards_calculated_upto, [180, 0, 0]);

    // computed again after the end: only the rest of the stream is paid
    user.calculate_claimable_rewards(250, 1_000, &mut change, &mut global, &key(1), &reward, 300)
        .unwrap();
    // 5 * 20 * 250 / 1000 = 25
    assert_eq!(user.total_rewards, 62 + 37 + 25);
    assert_eq!(user.rewards_last_calculated_at, 200);
    assert_eq!(global.reward_calculated_for_lp_amount, [500, 0, 0]);
}

#[test]
fn a_stream_that_is_not_in_the_table_pays_nothing() {
    let reward = stream(100, 200, 5);
    let mut global = GlobalRewardInfo::new();
    global.add_new_active_reward(key(1), 100).unwrap();
    global.append_snapshot(1_000, 150);
    let mut change = GlobalUserLpRecentChange::new();
    let mut user = holder();
    assert_eq!(
        user.calculate_claimable_rewards(1_000, 1_000, &mut change, &mut global, &key(2), &reward, 250),
        Ok(())
    );
    assert_eq!(user.total_rewards, 0);
    assert_eq!(user.rewards_last_calculated_at, 0);
    assert_eq!(change.rewards_calculated_upto, [0, 0, 0]);
    assert_eq!(global.snapshots[0].reward_calculated_for_lp_amount, [0, 0, 0]);
}

#[test]
fn a_failed_walk_changes_nothing() {
    let reward = stream(100, 200, 5);
    let mut global = GlobalRewardInfo::new();
    global.add_new_active_reward(key(1), 100).unwrap();
    global.append_snapshot(1_000, 150);
    let mut change = GlobalUserLpRecentChange::new();
    let mut user = holder();
    // before the stream starts there is a negative time to pay for
    assert_eq!(
        user.calculate_claimable_rewards(1_000, 1_000, &mut change, &mut global, &key(1), &reward, 50),
        Err(GammaError::MathOverflow)
    );
    // a supply of zero cannot be divided by
    assert_eq!(
        user.calculate_claimable_rewards(1_000, 0, &mut change, &mut global, &key(1), &reward, 250),
        Err(GammaError::MathOverflow)
    );
    // a product without room in 64 bits
    let rich = stream(100, 200, u64::MAX);
    assert_eq!(
        user.calculate_claimable_rewards(1_000, 1_000, &mut change, &mut global, &key(1), &rich, 250),
        Err(GammaError::MathOverflow)
    );
    assert_eq!(user.total_rewards, 0);
    assert_eq!(user.rewards_last_calculated_at, 0);
    assert_eq!(change.rewards_calculated_upto, [0, 0, 0]);
    assert_eq!(global.snapshots[0].reward_calculated_for_lp_amount, [0, 0, 0]);
    assert_eq!(global.reward_calculated_for_lp_amount, [0, 0, 0]);
}

#[test]
fn reward_for_an_interval_is_rounded_down() {
    assert_eq!(UserRewardInfo::reward_for_interval(5, 50, 250, 1_000), Some(62));
    assert_eq!(UserRewardInfo::reward_for_interval(5, 0, 250, 1_000), Some(0));
    assert_eq!(UserRewardInfo::reward_for_interval(5, 50, 250, 0), None);
    assert_eq!(UserRewardInfo::reward_for_interval(u64::MAX, 2, 1, 1), None);
    assert_eq!(UserRewardInfo::reward_for_interval(u64::MAX, 1, 2, 2), None);
}

#[test]
fn claimable_rewards_never_go_below_zero() {
    let mut user = holder();
    user.total_rewards = 10;
    user.total_claimed = 4;
    assert_eq!(user.get_total_claimable_rewards(), 6);
    user.total_claimed = 40;
    assert_eq!(user.get_total_claimable_rewards(), 0);
}

#[test]
fn changes_of_a_holder_are_recorded_and_dropped_from_the_front() {
    let mut global = GlobalRewardInfo::new();
    let mut change = GlobalUserLpRecentChange::new();
    change.append_snapshot(10, 100, &global);
    assert_eq!(change.lp_snapshots.len(), 0);
    global.add_new_active_reward(key(1), 100).unwrap();
    change.append_snapshot(10, 100, &global);
    change.append_snapshot(20, 200, &global);
    change.append_snapshot(30, 300, &global);
    assert_eq!(
        change.lp_snapshots,
        vec![
            GlobalUserLpSnapshot { lp_amount: 10, timestamp: 100 },
            GlobalUserLpSnapshot { lp_amount: 20, timestamp: 200 },
            GlobalUserLpSnapshot { lp_amount: 30, timestamp: 300 },
        ]
    );
    change.rewards_calculated_upto = [250, 400, 260];
    assert_eq!(change.remove_in_active_snapshots(&global), Ok(()));
    assert_eq!(
        change.lp_snapshots,
        vec![GlobalUserLpSnapshot { lp_amount: 30, timestamp: 300 }]
    );
    // a slot that was never computed keeps everything
    change.rewards_calculated_upto = [250, 0, 260];
    assert_eq!(change.remove_in_active_snapshots(&global), Ok(()));
    assert_eq!(change.lp_snapshots.len(), 1);
    // without a stream nothing is kept
    global.remove_inactive_rewards(&key(1), false);
    assert_eq!(change.remove_in_active_snapshots(&global), Ok(()));
    assert_eq!(change.lp_snapshots.len(), 0);
}

#[test]
fn reward_info_gives_its_duration_and_what_is_left() {
    let mut reward = stream(100, 200, 5);
    assert_eq!(reward.get_time_diff(), Ok(Dec { mantissa: 100, scale: 0 }));
    assert_eq!(reward.get_amount_left_to_disburse(), Ok(500));
    reward.amount_disbursed = 120;
    assert_eq!(reward.get_amount_left_to_disburse(), Ok(380));
    reward.amount_disbursed = 501;
    assert_eq!(reward.get_amount_left_to_disburse(), Err(GammaError::MathOverflow));
    reward.end_rewards_at = 99;
    assert_eq!(reward.get_time_diff(), Err(GammaError::MathOverflow));
}

#[test]
fn creating_a_stream_checks_its_window() {
    assert_eq!(check_reward_time(50, 100, 200), Ok(()));
    assert_eq!(check_reward_time(100, 100, 200), Err(GammaError::InvalidRewardTime));
    assert_eq!(check_reward_time(150, 100, 200), Err(GammaError::InvalidRewardTime));
    assert_eq!(check_reward_time(50, 200, 200), Err(GammaError::InvalidRewardTime));
    assert_eq!(check_reward_time(50, 200, 100), Err(GammaError::InvalidRewardTime));

    let mut reward = stream(0, 1, 0);
    assert_eq!(
        create_rewards(&mut reward, key(1), key(2), key(3), 50, 100, 200, 1_050),
        Ok(())
    );
    assert_eq!(reward.pool, key(1));
    assert_eq!(reward.mint, key(2));
    assert_eq!(reward.rewarded_by, key(3));
    assert_eq!(reward.start_at, 100);
    assert_eq!(reward.end_rewards_at, 200);
    assert_eq!(reward.total_to_disburse, 1_050);
    // 1050 over 100 seconds
    assert_eq!(reward.emission_per_second, 10);
    assert_eq!(
        create_rewards(&mut reward, key(4), key(5), key(6), 150, 100, 200, 7),
        Err(GammaError::InvalidRewardTime)
    );
    assert_eq!(reward.pool, key(1));
    assert_eq!(reward.total_to_disburse, 1_050);
}

#[test]
fn calculating_rewards_clears_away_what_is_done() {
    let reward = stream(100, 200, 5);
    let mut global = GlobalRewardInfo::new();
    global.add_new_active_reward(key(1), 100).unwrap();
    global.append_snapshot(1_000, 90);
    global.append_snapshot(1_000, 150);
    let mut change = GlobalUserLpRecentChange::new();
    change.append_snapshot(1_000, 95, &global);
    let mut user = holder();
    let mut pool_state = PoolState::default();
    pool_state.lp_supply = 1_000;
    let mut liquidity = UserPoolLiquidity::new(key(5), key(9), None, 10);
    liquidity.lp_tokens_owned = 1_000;

    assert_eq!(
        calculate_rewards(
            &mut user,
            &liquidity,
            &pool_state,
            &mut change,
            &mut global,
            &key(1),
            &reward,
            true,
            180
        ),
        Ok(())
    );
    assert_eq!(user.total_rewards, 5 * 80);
    assert_eq!(user.rewards_last_calculated_at, 180);
    // the snapshot before the start is gone; the one at 150 is wholly computed and gone too
    assert_eq!(global.snapshots.len(), 0);
    // the other two slots were never computed, so the change of the holder stays
    assert_eq!(change.lp_snapshots.len(), 1);
    assert_eq!(change.rewards_calculated_upto, [180, 0, 0]);

    // a holder that is up to date is left alone
    assert_eq!(
        calculate_rewards(
            &mut user,
            &liquidity,
            &pool_state,
            &mut change,
            &mut global,
            &key(1),
            &reward,
            false,
            180
        ),
        Ok(())
    );
    assert_eq!(global.active_boosted_reward_info[0], key(1));

    // after the end the stream leaves the table, and nothing is kept
    assert_eq!(
        calculate_rewards(
            &mut user,
            &liquidity,
            &pool_state,
            &mut change,
            &mut global,
            &key(1),
            &reward,
            false,
            300
        ),
        Ok(())
    );
    assert_eq!(user.total_rewards, 500);
    assert_eq!(global.active_boosted_reward_info[0], Pubkey::default());
    assert!(!global.has_any_active_rewards());
    assert_eq!(change.lp_snapshots.len(), 0);
}
