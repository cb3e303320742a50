use crate::error::GammaError;
use crate::states::global_reward_info::{any_slot_taken, slot_of, GlobalRewardInfo, Snapshot, MAX_REWARDS};
use crate::states::reward_info::RewardInfo;
use crate::utils::pubkey::Pubkey;
use vstd::prelude::*;

verus! {

/// The liquidity tokens that a holder had from `timestamp` on.
#[derive(Clone, Copy, Debug, PartialEq, Eq, Structural)]
pub struct GlobalUserLpSnapshot {
    pub lp_amount: u64,
    pub timestamp: u64,
}

/// The late changes of the liquidity tokens of one holder, oldest first, and
/// for each reward slot the time up to which the holder's reward was
/// computed.
#[derive(Debug)]
pub struct GlobalUserLpRecentChange {
    pub rewards_calculated_upto: [u64; 3],
    pub lp_snapshots: Vec<GlobalUserLpSnapshot>,
}

/// What one holder has earned of one reward stream.
#[derive(Clone, Copy, Debug)]
pub struct UserRewardInfo {
    pub user_pool_lp_account: Pubkey,
    pub reward_info: Pubkey,
    pub total_claimed: u64,
    pub total_rewards: u64,
    pub rewards_last_calculated_at: u64,
}

/// Where the walk through the snapshots stands.
pub struct Accrual {
    /// The time up to which the reward is computed.
    pub cursor: u64,
    /// Whether the walk has passed the end of the stream.
    pub reached_end: bool,
    /// The reward of the holder so far.
    pub total_rewards: u64,
    /// For each snapshot of the pool, how much of its supply has been
    /// computed for the stream.
    pub covered: Seq<u64>,
}

/// What a computation of a holder's reward leaves behind.
pub struct ClaimOutcome {
    pub total_rewards: u64,
    pub rewards_last_calculated_at: u64,
    /// For each snapshot of the pool, how much of its supply has been
    /// computed for the stream.
    pub covered: Seq<u64>,
    /// How much of the present supply has been computed for the stream.
    pub pool_covered: u64,
}

/// The reward for `duration` seconds of a holder of `lp_owned` out of
/// `supply` liquidity tokens, rounded down; nothing where a product has no
/// room in 64 bits or the supply is zero.
pub open spec fn interval_reward(emission_per_second: u64, duration: int, lp_owned: u64, supply: u64) -> Option<u64> {
    if emission_per_second * duration > u64::MAX || emission_per_second * duration * lp_owned > u64::MAX
        || supply == 0 {
        None
    } else {
        Some(((emission_per_second * duration * lp_owned) / (supply as int)) as u64)
    }
}

/// The walk after the snapshot `j` of the pool, taken at `timestamp`.
///
/// A snapshot before the cursor, and any snapshot once the end of the stream
/// is passed, changes nothing. Else the holder is paid from the cursor up to
/// the snapshot, or up to the end of the stream where that comes first, the
/// snapshot counts `lp_amount` more as computed, and the cursor moves on.
pub open spec fn accrue_snapshot(
    st: Accrual,
    j: int,
    timestamp: u64,
    lp_amount: u64,
    reward: RewardInfo,
    lp_owned: u64,
    supply: u64,
) -> Option<Accrual> {
    if st.reached_end || st.cursor > timestamp {
        Some(st)
    } else {
        let end_time = if reward.end_rewards_at < timestamp {
            reward.end_rewards_at
        } else {
            timestamp
        };
        if st.covered[j] + lp_amount > u64::MAX || end_time < st.cursor {
            None
        } else {
            match interval_reward(reward.emission_per_second, end_time - st.cursor, lp_owned, supply) {
                None => None,
                Some(gain) => if st.total_rewards + gain > u64::MAX {
                    None
                } else {
                    Some(
                        Accrual {
                            cursor: end_time,
                            reached_end: reward.end_rewards_at < timestamp,
                            total_rewards: (st.total_rewards + gain) as u64,
                            covered: st.covered.update(j, (st.covered[j] + lp_amount) as u64),
                        },
                    )
                },
            }
        }
    }
}

/// The walk after the first `n` snapshots of the pool.
pub open spec fn accrue_snapshots(
    st: Accrual,
    timestamps: Seq<u64>,
    n: nat,
    lp_amount: u64,
    reward: RewardInfo,
    lp_owned: u64,
    supply: u64,
) -> Option<Accrual>
    decreases n,
{
    if n == 0 {
        Some(st)
    } else {
        match accrue_snapshots(st, timestamps, (n - 1) as nat, lp_amount, reward, lp_owned, supply) {
            None => None,
            Some(before) => accrue_snapshot(
                before,
                n - 1,
                timestamps[n - 1],
                lp_amount,
                reward,
                lp_owned,
                supply,
            ),
        }
    }
}

/// The walk after one change of the holder's liquidity tokens: a change
/// before the cursor is passed over, any other walks through all snapshots
/// of the pool.
pub open spec fn accrue_change(
    st: Accrual,
    change: GlobalUserLpSnapshot,
    timestamps: Seq<u64>,
    reward: RewardInfo,
    lp_owned: u64,
    supply: u64,
) -> Option<Accrual> {
    if change.timestamp < st.cursor {
        Some(st)
    } else {
        accrue_snapshots(st, timestamps, timestamps.len(), change.lp_amount, reward, lp_owned, supply)
    }
}

/// The walk after the first `m` changes of the holder's liquidity tokens.
pub open spec fn accrue_changes(
    st: Accrual,
    changes: Seq<GlobalUserLpSnapshot>,
    m: nat,
    timestamps: Seq<u64>,
    reward: RewardInfo,
    lp_owned: u64,
    supply: u64,
) -> Option<Accrual>
    decreases m,
{
    if m == 0 {
        Some(st)
    } else {
        match accrue_changes(st, changes, (m - 1) as nat, timestamps, reward, lp_owned, supply) {
            None => None,
            Some(before) => accrue_change(before, changes[m - 1], timestamps, reward, lp_owned, supply),
        }
    }
}

/// The end of the walk: unless the end of the stream is passed, the holder
/// is paid from the cursor up to now, or up to the end of the stream where
/// that comes first, and the present supply counts the holder's liquidity
/// tokens as computed.
pub open spec fn finish_accrual(
    st: Accrual,
    pool_covered: u64,
    reward: RewardInfo,
    lp_owned: u64,
    supply: u64,
    time_now: u64,
) -> Option<ClaimOutcome> {
    if st.reached_end {
        Some(
            ClaimOutcome {
                total_rewards: st.total_rewards,
                rewards_last_calculated_at: st.cursor,
                covered: st.covered,
                pool_covered,
            },
        )
    } else {
        let end_time = if time_now < reward.end_rewards_at {
            time_now
        } else {
            reward.end_rewards_at
        };
        if end_time < st.cursor || pool_covered + lp_owned > u64::MAX {
            None
        } else {
            match interval_reward(reward.emission_per_second, end_time - st.cursor, lp_owned, supply) {
                None => None,
                Some(gain) => if st.total_rewards + gain > u64::MAX {
                    None
                } else {
                    Some(
                        ClaimOutcome {
                            total_rewards: (st.total_rewards + gain) as u64,
                            rewards_last_calculated_at: end_time,
                            covered: st.covered,
                            pool_covered: (pool_covered + lp_owned) as u64,
                        },
                    )
                },
            }
        }
    }
}

/// Where the walk starts: at the start of the stream, or where the last
/// computation for the holder stopped if that is later.
pub open spec fn start_of_accrual(user: UserRewardInfo, reward: RewardInfo, covered: Seq<u64>) -> Accrual {
    Accrual {
        cursor: if reward.start_at >= user.rewards_last_calculated_at {
            reward.start_at
        } else {
            user.rewards_last_calculated_at
        },
        reached_end: false,
        total_rewards: user.total_rewards,
        covered,
    }
}

/// The changes of the holder with the present holding, dated now, as the
/// last one.
pub open spec fn changes_up_to_now(changes: Seq<GlobalUserLpSnapshot>, lp_owned: u64, time_now: u64) -> Seq<
    GlobalUserLpSnapshot,
> {
    changes.push(GlobalUserLpSnapshot { lp_amount: lp_owned, timestamp: time_now })
}

/// What the computation of a holder's reward gives; nothing where a step
/// overflows or would pay for a negative time.
pub open spec fn claim_outcome(
    user: UserRewardInfo,
    lp_owned: u64,
    supply: u64,
    changes: Seq<GlobalUserLpSnapshot>,
    timestamps: Seq<u64>,
    covered: Seq<u64>,
    pool_covered: u64,
    reward: RewardInfo,
    time_now: u64,
) -> Option<ClaimOutcome> {
    let all = changes_up_to_now(changes, lp_owned, time_now);
    match accrue_changes(
        start_of_accrual(user, reward, covered),
        all,
        all.len(),
        timestamps,
        reward,
        lp_owned,
        supply,
    ) {
        None => None,
        Some(st) => finish_accrual(st, pool_covered, reward, lp_owned, supply, time_now),
    }
}

/// The times of the snapshots.
pub open spec fn timestamps_of(snapshots: Seq<Snapshot>) -> Seq<u64> {
    Seq::new(snapshots.len(), |j: int| snapshots[j].timestamp)
}

/// For each snapshot, how much of its supply is computed for the slot.
pub open spec fn covered_of(snapshots: Seq<Snapshot>, slot: int) -> Seq<u64> {
    Seq::new(snapshots.len(), |j: int| snapshots[j].reward_calculated_for_lp_amount@[slot])
}

/// The snapshot with `amount` of its supply computed for the slot.
pub open spec fn with_covered(snapshot: Snapshot, slot: int, amount: u64) -> Snapshot {
    Snapshot {
        reward_calculated_for_lp_amount: vstd::array::spec_array_update(
            snapshot.reward_calculated_for_lp_amount,
            slot,
            amount,
        ),
        ..snapshot
    }
}

/// The liquidity tokens of the first `m` changes together.
pub open spec fn changes_total(changes: Seq<GlobalUserLpSnapshot>, m: nat) -> int
    decreases m,
{
    if m == 0 {
        0
    } else {
        changes_total(changes, (m - 1) as nat) + changes[m - 1].lp_amount
    }
}

/// The least of the three times.
pub open spec fn least_of(times: Seq<u64>) -> u64 {
    let ab = if times[0] <= times[1] {
        times[0]
    } else {
        times[1]
    };
    if ab <= times[2] {
        ab
    } else {
        times[2]
    }
}

/// The changes without the oldest ones dated before `before`.
pub open spec fn without_older(changes: Seq<GlobalUserLpSnapshot>, before: u64) -> Seq<GlobalUserLpSnapshot>
    decreases changes.len(),
{
    if changes.len() == 0 || changes[0].timestamp >= before {
        changes
    } else {
        without_older(changes.drop_first(), before)
    }
}

/// The changes that stay: none where the pool has no stream, else all but
/// the oldest ones dated before the least time up to which a slot was
/// computed.
pub open spec fn changes_after_removal(
    table: Seq<Pubkey>,
    calculated_upto: Seq<u64>,
    changes: Seq<GlobalUserLpSnapshot>,
) -> Seq<GlobalUserLpSnapshot> {
    if !any_slot_taken(table) {
        Seq::empty()
    } else {
        without_older(changes, least_of(calculated_upto))
    }
}

/// The snapshots of the pool with what the walk has counted as computed for
/// the slot.
pub open spec fn snapshots_with_covered(snapshots: Seq<Snapshot>, slot: int, covered: Seq<u64>) -> Seq<Snapshot> {
    Seq::new(snapshots.len(), |j: int| with_covered(snapshots[j], slot, covered[j]))
}

impl UserRewardInfo {
    /// What the holder has earned and not yet claimed.
    pub fn get_total_claimable_rewards(&self) -> (claimable: u64)
        ensures
            claimable == if self.total_rewards >= self.total_claimed {
                self.total_rewards - self.total_claimed
            } else {
                0
            },
    {
        self.total_rewards.saturating_sub(self.total_claimed)
    }

    /// What [`UserRewardInfo::calculate_claimable_rewards`] computes for a
    /// stream in the slot given.
    pub open spec fn spec_claim(
        &self,
        lp_owned_by_user: u64,
        current_lp_supply: u64,
        user_lp_recent_change: &GlobalUserLpRecentChange,
        global_rewards: &GlobalRewardInfo,
        slot: int,
        reward_info: &RewardInfo,
        time_now: u64,
    ) -> Option<ClaimOutcome> {
        claim_outcome(
            *self,
            lp_owned_by_user,
            current_lp_supply,
            user_lp_recent_change.lp_snapshots@,
            timestamps_of(global_rewards.snapshots@),
            covered_of(global_rewards.snapshots@, slot),
            global_rewards.reward_calculated_for_lp_amount@[slot],
            *reward_info,
            time_now,
        )
    }

    /// Brings the reward of a holder of `lp_owned_by_user` out of
    /// `current_lp_supply` liquidity tokens up to `time_now`.
    ///
    /// For a stream that is not in the table of the pool, nothing is done.
    /// Else the reward is computed from the start of the stream, or from
    /// where the last computation stopped, over every change of the holder's
    /// liquidity tokens and every snapshot of the pool, up to now or the end
    /// of the stream: each interval pays `emission_per_second` times its
    /// seconds times the holder's part of the supply, rounded down. Each
    /// snapshot passed and the present supply count the liquidity tokens as
    /// computed for the stream.
    ///
    /// Where a step overflows, or the time to pay for would be negative, the
    /// error is `MathOverflow` and nothing is changed.
    ///
    /// A holder of the whole supply who was last computed no later than the
    /// start of the stream, and is now computed at its end or later, has
    /// earned `emission_per_second` for every second of the stream.
    pub fn calculate_claimable_rewards(
        &mut self,
        lp_owned_by_user: u64,
        current_lp_supply: u64,
        user_lp_recent_change: &mut GlobalUserLpRecentChange,
        global_rewards: &mut GlobalRewardInfo,
        reward_key: &Pubkey,
        reward_info: &RewardInfo,
        time_now: u64,
    ) -> (r: Result<(), GammaError>)
        ensures
            final(self).user_pool_lp_account == old(self).user_pool_lp_account,
            final(self).reward_info == old(self).reward_info,
            final(self).total_claimed == old(self).total_claimed,
            final(user_lp_recent_change).lp_snapshots@ == old(user_lp_recent_change).lp_snapshots@,
            final(global_rewards).active_boosted_reward_info == old(global_rewards).active_boosted_reward_info,
            final(global_rewards).start_times == old(global_rewards).start_times,
            final(global_rewards).snapshots@.len() == old(global_rewards).snapshots@.len(),
            timestamps_of(final(global_rewards).snapshots@) == timestamps_of(old(global_rewards).snapshots@),
            match slot_of(old(global_rewards).active_boosted_reward_info@, *reward_key) {
                None => {
                    &&& r.is_ok()
                    &&& *final(self) == *old(self)
                    &&& final(user_lp_recent_change).rewards_calculated_upto == old(
                        user_lp_recent_change,
                    ).rewards_calculated_upto
                    &&& final(global_rewards).reward_calculated_for_lp_amount == old(
                        global_rewards,
                    ).reward_calculated_for_lp_amount
                    &&& final(global_rewards).snapshots@ == old(global_rewards).snapshots@
                },
                Some(slot) => match old(self).spec_claim(
                    lp_owned_by_user,
                    current_lp_supply,
                    old(user_lp_recent_change),
                    old(global_rewards),
                    slot,
                    reward_info,
                    time_now,
                ) {
                    None => {
                        &&& r == Err::<(), GammaError>(GammaError::MathOverflow)
                        &&& *final(self) == *old(self)
                        &&& final(user_lp_recent_change).rewards_calculated_upto == old(
                            user_lp_recent_change,
                        ).rewards_calculated_upto
                        &&& final(global_rewards).reward_calculated_for_lp_amount == old(
                            global_rewards,
                        ).reward_calculated_for_lp_amount
                        &&& final(global_rewards).snapshots@ == old(global_rewards).snapshots@
                    },
                    Some(outcome) => {
                        &&& r.is_ok()
                        &&& final(self).total_rewards == outcome.total_rewards
                        &&& final(self).rewards_last_calculated_at == outcome.rewards_last_calculated_at
                        &&& final(user_lp_recent_change).rewards_calculated_upto@ == old(
                            user_lp_recent_change,
                        ).rewards_calculated_upto@.update(slot, time_now)
                        &&& final(global_rewards).reward_calculated_for_lp_amount@ == old(
                            global_rewards,
                        ).reward_calculated_for_lp_amount@.update(slot, outcome.pool_covered)
                        &&& forall|j: int|
                            0 <= j < old(global_rewards).snapshots@.len() ==> #[trigger] final(global_rewards).snapshots@[j] == with_covered(
                                old(global_rewards).snapshots@[j],
                                slot,
                                outcome.covered[j],
                            )
                    },
                },
            },
    {
        broadcast use vstd::array::group_array_axioms;

        let slot = match global_rewards.reward_slot(reward_key) {
            Some(i) => i,
            None => { return Ok(()); },
        };
        let snapshot_count = global_rewards.snapshots.len();
        let change_count = user_lp_recent_change.lp_snapshots.len();
        let ghost timestamps = timestamps_of(global_rewards.snapshots@);
        let ghost changes = changes_up_to_now(user_lp_recent_change.lp_snapshots@, lp_owned_by_user, time_now);
        let ghost start = start_of_accrual(*self, *reward_info, covered_of(global_rewards.snapshots@, slot as int));

        let mut covered: Vec<u64> = Vec::new();
        let mut j: usize = 0;
        while j < snapshot_count
            invariant
                j <= snapshot_count,
                snapshot_count == global_rewards.snapshots@.len(),
                slot < MAX_REWARDS,
                covered@.len() == j,
                forall|i: int|
                    0 <= i < j ==> covered@[i] == global_rewards.snapshots@[i].reward_calculated_for_lp_amount@[slot as int],
            decreases snapshot_count - j,
        {
            covered.push(global_rewards.snapshots[j].reward_calculated_for_lp_amount[slot]);
            j += 1;
        }
        assert(covered@ =~= covered_of(global_rewards.snapshots@, slot as int));

        let mut cursor: u64 = if reward_info.start_at >= self.rewards_last_calculated_at {
            reward_info.start_at
        } else {
            self.rewards_last_calculated_at
        };
        let mut reached_end = false;
        let mut total_rewards: u64 = self.total_rewards;

        let mut k: usize = 0;
        while k < change_count
            invariant
                k <= change_count,
                change_count == user_lp_recent_change.lp_snapshots@.len(),
                snapshot_count == global_rewards.snapshots@.len(),
                covered@.len() == snapshot_count,
                timestamps == timestamps_of(global_rewards.snapshots@),
                changes == changes_up_to_now(user_lp_recent_change.lp_snapshots@, lp_owned_by_user, time_now),
                accrue_changes(
                    start,
                    changes,
                    k as nat,
                    timestamps,
                    *reward_info,
                    lp_owned_by_user,
                    current_lp_supply,
                ) == Some(Accrual { cursor, reached_end, total_rewards, covered: covered@ }),
                *self == *old(self),
                *user_lp_recent_change == *old(user_lp_recent_change),
                *global_rewards == *old(global_rewards),
                slot_of(global_rewards.active_boosted_reward_info@, *reward_key) == Some(slot as int),
                start == start_of_accrual(
                    *self,
                    *reward_info,
                    covered_of(global_rewards.snapshots@, slot as int),
                ),
            decreases change_count - k,
        {
            let change = user_lp_recent_change.lp_snapshots[k];
            assert(change == changes[k as int]);
            if change.timestamp >= cursor {
                match Self::accrue_over_snapshots(
                    &global_rewards.snapshots,
                    &mut covered,
                    cursor,
                    reached_end,
                    total_rewards,
                    change.lp_amount,
                    reward_info,
                    lp_owned_by_user,
                    current_lp_supply,
                ) {
                    Some(after) => {
                        cursor = after.0;
                        reached_end = after.1;
                        total_rewards = after.2;
                    },
                    None => {
                        proof {
                            Self::lemma_changes_stay_failed(
                                start,
                                changes,
                                (k + 1) as nat,
                                changes.len(),
                                timestamps,
                                *reward_info,
                                lp_owned_by_user,
                                current_lp_supply,
                            );
                        }
                        return Err(GammaError::MathOverflow);
                    },
                }
            }
            k += 1;
        }
        // The holding as it is now closes the list of changes.
        assert(changes[change_count as int] == GlobalUserLpSnapshot {
            lp_amount: lp_owned_by_user,
            timestamp: time_now,
        });
        if time_now >= cursor {
            match Self::accrue_over_snapshots(
                &global_rewards.snapshots,
                &mut covered,
                cursor,
                reached_end,
                total_rewards,
                lp_owned_by_user,
                reward_info,
                lp_owned_by_user,
                current_lp_supply,
            ) {
                Some(after) => {
                    cursor = after.0;
                    reached_end = after.1;
                    total_rewards = after.2;
                },
                None => { return Err(GammaError::MathOverflow); },
            }
        }
        assert(accrue_changes(
            start,
            changes,
            changes.len(),
            timestamps,
            *reward_info,
            lp_owned_by_user,
            current_lp_supply,
        ) == Some(Accrual { cursor, reached_end, total_rewards, covered: covered@ }));

        let mut pool_covered = global_rewards.reward_calculated_for_lp_amount[slot];
        if !reached_end {
            let end_time = if time_now < reward_info.end_rewards_at {
                time_now
            } else {
                reward_info.end_rewards_at
            };
            let duration = match end_time.checked_sub(cursor) {
                Some(v) => v,
                None => { return Err(GammaError::MathOverflow); },
            };
            pool_covered = match pool_covered.checked_add(lp_owned_by_user) {
                Some(v) => v,
                None => { return Err(GammaError::MathOverflow); },
            };
            let gain = match Self::reward_for_interval(
                reward_info.emission_per_second,
                duration,
                lp_owned_by_user,
                current_lp_supply,
            ) {
                Some(v) => v,
                None => { return Err(GammaError::MathOverflow); },
            };
            total_rewards = match total_rewards.checked_add(gain) {
                Some(v) => v,
                None => { return Err(GammaError::MathOverflow); },
            };
            cursor = end_time;
        }
        self.total_rewards = total_rewards;
        self.rewards_last_calculated_at = cursor;
        user_lp_recent_change.rewards_calculated_upto[slot] = time_now;
        global_rewards.reward_calculated_for_lp_amount[slot] = pool_covered;

        let mut j: usize = 0;
        while j < snapshot_count
            invariant
                j <= snapshot_count,
                slot < MAX_REWARDS,
                snapshot_count == old(global_rewards).snapshots@.len(),
                global_rewards.snapshots@.len() == snapshot_count,
                covered@.len() == snapshot_count,
                global_rewards.active_boosted_reward_info == old(global_rewards).active_boosted_reward_info,
                global_rewards.start_times == old(global_rewards).start_times,
                global_rewards.reward_calculated_for_lp_amount@ == old(
                    global_rewards,
                ).reward_calculated_for_lp_amount@.update(slot as int, pool_covered),
                forall|i: int|
                    0 <= i < j ==> #[trigger] global_rewards.snapshots@[i] == with_covered(
                        old(global_rewards).snapshots@[i],
                        slot as int,
                        covered@[i],
                    ),
                forall|i: int|
                    j <= i < snapshot_count ==> #[trigger] global_rewards.snapshots@[i] == old(
                        global_rewards,
                    ).snapshots@[i],
            decreases snapshot_count - j,
        {
            let mut snapshot = global_rewards.snapshots[j];
            snapshot.reward_calculated_for_lp_amount[slot] = covered[j];
            assert(snapshot.reward_calculated_for_lp_amount =~= with_covered(
                old(global_rewards).snapshots@[j as int],
                slot as int,
                covered@[j as int],
            ).reward_calculated_for_lp_amount);
            global_rewards.snapshots[j] = snapshot;
            j += 1;
        }
        assert(timestamps_of(global_rewards.snapshots@) =~= timestamps_of(old(global_rewards).snapshots@));
        Ok(())
    }

    /// Walks through all snapshots of the pool for one change of the
    /// holder's liquidity tokens: gives the cursor, whether the end of the
    /// stream is passed, and the reward, and counts `lp_amount` as computed
    /// in each snapshot passed. Nothing where a step fails.
    fn accrue_over_snapshots(
        snapshots: &Vec<Snapshot>,
        covered: &mut Vec<u64>,
        cursor: u64,
        reached_end: bool,
        total_rewards: u64,
        lp_amount: u64,
        reward_info: &RewardInfo,
        lp_owned: u64,
        supply: u64,
    ) -> (r: Option<(u64, bool, u64)>)
        requires
            old(covered)@.len() == snapshots@.len(),
        ensures
            final(covered)@.len() == snapshots@.len(),
            match accrue_snapshots(
                Accrual { cursor, reached_end, total_rewards, covered: old(covered)@ },
                timestamps_of(snapshots@),
                snapshots@.len(),
                lp_amount,
                *reward_info,
                lp_owned,
                supply,
            ) {
                Some(st) => r == Some((st.cursor, st.reached_end, st.total_rewards)) && final(covered)@
                    == st.covered,
                None => r.is_none(),
            },
    {
        let ghost first = Accrual { cursor, reached_end, total_rewards, covered: covered@ };
        let ghost timestamps = timestamps_of(snapshots@);
        let mut till = cursor;
        let mut ended = reached_end;
        let mut total = total_rewards;
        let mut j: usize = 0;
        while j < snapshots.len()
            invariant
                j <= snapshots.len(),
                covered@.len() == snapshots@.len(),
                timestamps == timestamps_of(snapshots@),
                first == (Accrual { cursor, reached_end, total_rewards, covered: old(covered)@ }),
                accrue_snapshots(first, timestamps, j as nat, lp_amount, *reward_info, lp_owned, supply) == Some(
                    Accrual { cursor: till, reached_end: ended, total_rewards: total, covered: covered@ },
                ),
            decreases snapshots.len() - j,
        {
            let timestamp = snapshots[j].timestamp;
            assert(timestamp == timestamps[j as int]);
            let ghost here = Accrual { cursor: till, reached_end: ended, total_rewards: total, covered: covered@ };
            proof {
                if accrue_snapshot(here, j as int, timestamp, lp_amount, *reward_info, lp_owned, supply).is_none() {
                    Self::lemma_snapshots_stay_failed(
                        first,
                        timestamps,
                        (j + 1) as nat,
                        snapshots@.len(),
                        lp_amount,
                        *reward_info,
                        lp_owned,
                        supply,
                    );
                }
            }
            if !ended && till <= timestamp {
                let mut end_time = timestamp;
                let mut passes_end = false;
                if reward_info.end_rewards_at < timestamp {
                    passes_end = true;
                    end_time = reward_info.end_rewards_at;
                }
                let newly_covered = covered[j].checked_add(lp_amount)?;
                let duration = end_time.checked_sub(till)?;
                let gain = Self::reward_for_interval(
                    reward_info.emission_per_second,
                    duration,
                    lp_owned,
                    supply,
                )?;
                total = total.checked_add(gain)?;
                covered[j] = newly_covered;
                till = end_time;
                ended = passes_end;
            }
            j += 1;
        }
        Some((till, ended, total))
    }

    /// The reward for `duration` seconds of a holder of `lp_owned` out of
    /// `supply` liquidity tokens: `emission_per_second * duration * lp_owned
    /// / supply`, each step in 64 bits.
    pub fn reward_for_interval(emission_per_second: u64, duration: u64, lp_owned: u64, supply: u64) -> (gain: Option<
        u64,
    >)
        ensures
            gain == interval_reward(emission_per_second, duration as int, lp_owned, supply),
    {
        let emitted = emission_per_second.checked_mul(duration)?;
        let weighted = match emitted.checked_mul(lp_owned) {
            Some(v) => v,
            None => {
                assert(emission_per_second * duration * lp_owned == emitted * lp_owned) by (nonlinear_arith)
                    requires
                        emitted == emission_per_second * duration,
                ;
                return None;
            },
        };
        assert(emission_per_second * duration * lp_owned == weighted) by (nonlinear_arith)
            requires
                emitted == emission_per_second * duration,
                weighted == emitted * lp_owned,
        ;
        weighted.checked_div(supply)
    }

    /// A holder of the whole supply earns the whole emission: brought up to
    /// date at the end of the stream or later, having last been computed no
    /// later than its start, the holder has earned `emission_per_second` for
    /// every second from `start_at` to `end_rewards_at`, whatever snapshots
    /// the pool and the holder have, as long as the computation succeeds.
    pub proof fn lemma_whole_supply_earns_whole_emission(
        user: UserRewardInfo,
        supply: u64,
        changes: Seq<GlobalUserLpSnapshot>,
        timestamps: Seq<u64>,
        covered: Seq<u64>,
        pool_covered: u64,
        reward: RewardInfo,
        time_now: u64,
    )
        requires
            supply > 0,
            user.rewards_last_calculated_at <= reward.start_at <= reward.end_rewards_at <= time_now,
            claim_outcome(
                user,
                supply,
                supply,
                changes,
                timestamps,
                covered,
                pool_covered,
                reward,
                time_now,
            ).is_some(),
        ensures
            ({
                let outcome = claim_outcome(
                    user,
                    supply,
                    supply,
                    changes,
                    timestamps,
                    covered,
                    pool_covered,
                    reward,
                    time_now,
                ).unwrap();
                &&& outcome.total_rewards == user.total_rewards + reward.emission_per_second * (
                reward.end_rewards_at - reward.start_at)
                &&& outcome.rewards_last_calculated_at == reward.end_rewards_at
            }),
    {
        let all = changes_up_to_now(changes, supply, time_now);
        let start = start_of_accrual(user, reward, covered);
        let base_total = user.total_rewards as int;
        let base_cursor = reward.start_at as int;
        assert(reward.emission_per_second * (start.cursor - base_cursor) == 0) by (nonlinear_arith)
            requires
                start.cursor - base_cursor == 0,
        ;
        Self::lemma_changes_on_track(start, all, all.len(), timestamps, reward, supply, base_total, base_cursor);
        let st = accrue_changes(start, all, all.len(), timestamps, reward, supply, supply).unwrap();
        if !st.reached_end {
            Self::lemma_interval_on_track(
                st.total_rewards,
                st.cursor,
                reward.end_rewards_at,
                reward,
                supply,
                base_total,
                base_cursor,
            );
        }
    }

    /// The computation for a holder of the whole supply succeeds wherever
    /// the numbers have room: brought up to date at the end of the stream or
    /// later, having last been computed no later than its start, the reward
    /// is worked out, as long as the whole emission times the supply and the
    /// holder's total with the whole emission fit 64 bits, and each coverage
    /// counter has room for the liquidity tokens of every change.
    pub proof fn lemma_whole_supply_claim_succeeds(
        user: UserRewardInfo,
        supply: u64,
        changes: Seq<GlobalUserLpSnapshot>,
        timestamps: Seq<u64>,
        covered: Seq<u64>,
        pool_covered: u64,
        reward: RewardInfo,
        time_now: u64,
    )
        requires
            supply > 0,
            user.rewards_last_calculated_at <= reward.start_at <= reward.end_rewards_at <= time_now,
            covered.len() == timestamps.len(),
            Self::stream_fits(user.total_rewards as int, reward, supply),
            pool_covered + supply <= u64::MAX,
            forall|j: int|
                0 <= j < covered.len() ==> #[trigger] covered[j] + changes_total(
                    changes_up_to_now(changes, supply, time_now),
                    (changes.len() + 1) as nat,
                ) <= u64::MAX,
        ensures
            claim_outcome(
                user,
                supply,
                supply,
                changes,
                timestamps,
                covered,
                pool_covered,
                reward,
                time_now,
            ).is_some(),
    {
        let all = changes_up_to_now(changes, supply, time_now);
        let start = start_of_accrual(user, reward, covered);
        let base_total = user.total_rewards as int;
        assert(reward.emission_per_second * (start.cursor - reward.start_at) == 0) by (nonlinear_arith)
            requires
                start.cursor - reward.start_at == 0,
        ;
        Self::lemma_changes_succeed(start, all, all.len(), timestamps, reward, supply, base_total, covered);
        let st = accrue_changes(start, all, all.len(), timestamps, reward, supply, supply).unwrap();
        if !st.reached_end {
            Self::lemma_interval_fits(
                st.total_rewards,
                st.cursor,
                reward.end_rewards_at,
                reward,
                supply,
                base_total,
            );
        }
    }

    /// The whole emission of the stream, paid to a holder of `supply`
    /// liquidity tokens with `total_rewards` so far, fits 64 bits at every
    /// step.
    pub open spec fn stream_fits(total_rewards: int, reward: RewardInfo, supply: u64) -> bool {
        &&& reward.emission_per_second * (reward.end_rewards_at - reward.start_at) * supply <= u64::MAX
        &&& total_rewards + reward.emission_per_second * (reward.end_rewards_at - reward.start_at)
            <= u64::MAX
    }

    /// One more interval within the stream can be paid to a holder of the
    /// whole supply, and the total has room for it.
    proof fn lemma_interval_fits(
        total_rewards: u64,
        cursor: u64,
        end_time: u64,
        reward: RewardInfo,
        supply: u64,
        base_total: int,
    )
        requires
            supply > 0,
            reward.start_at <= cursor <= end_time <= reward.end_rewards_at,
            total_rewards == base_total + reward.emission_per_second * (cursor - reward.start_at),
            Self::stream_fits(base_total, reward, supply),
        ensures
            interval_reward(reward.emission_per_second, end_time - cursor, supply, supply).is_some(),
            total_rewards + interval_reward(
                reward.emission_per_second,
                end_time - cursor,
                supply,
                supply,
            ).unwrap() <= u64::MAX,
    {
        let e = reward.emission_per_second as int;
        let d = end_time - cursor;
        let t = reward.end_rewards_at - reward.start_at;
        let s = supply as int;
        assert(0 <= e * d <= e * t) by (nonlinear_arith)
            requires
                0 <= e,
                0 <= d <= t,
        ;
        assert(e * d <= e * d * s && e * d * s <= e * t * s) by (nonlinear_arith)
            requires
                0 <= e * d <= e * t,
                s >= 1,
        ;
        assert((e * d * s) / s == e * d) by (nonlinear_arith)
            requires
                s > 0,
        ;
        assert(e * (cursor - reward.start_at) + e * d == e * (end_time - reward.start_at)) by (nonlinear_arith)
            requires
                d == end_time - cursor,
        ;
        assert(e * (end_time - reward.start_at) <= e * t) by (nonlinear_arith)
            requires
                0 <= e,
                end_time - reward.start_at <= t,
        ;
    }

    /// A walk through the first `n` snapshots, for a holder of the whole
    /// supply and with room in the numbers, succeeds, stays on track, and
    /// counts `lp_amount` at most once in each snapshot passed.
    proof fn lemma_snapshots_succeed(
        st: Accrual,
        timestamps: Seq<u64>,
        n: nat,
        lp_amount: u64,
        reward: RewardInfo,
        supply: u64,
        base_total: int,
    )
        requires
            supply > 0,
            n <= timestamps.len(),
            st.covered.len() == timestamps.len(),
            Self::on_track(st, base_total, reward.start_at as int, reward),
            Self::stream_fits(base_total, reward, supply),
            forall|j: int| 0 <= j < st.covered.len() ==> #[trigger] st.covered[j] + lp_amount <= u64::MAX,
        ensures
            accrue_snapshots(st, timestamps, n, lp_amount, reward, supply, supply).is_some(),
            ({
                let after = accrue_snapshots(st, timestamps, n, lp_amount, reward, supply, supply).unwrap();
                &&& Self::on_track(after, base_total, reward.start_at as int, reward)
                &&& after.covered.len() == st.covered.len()
                &&& forall|j: int|
                    0 <= j < n ==> st.covered[j] <= #[trigger] after.covered[j] <= st.covered[j] + lp_amount
                &&& forall|j: int| n <= j < st.covered.len() ==> #[trigger] after.covered[j] == st.covered[j]
            }),
        decreases n,
    {
        if n > 0 {
            Self::lemma_snapshots_succeed(
                st,
                timestamps,
                (n - 1) as nat,
                lp_amount,
                reward,
                supply,
                base_total,
            );
            let before = accrue_snapshots(st, timestamps, (n - 1) as nat, lp_amount, reward, supply, supply).unwrap();
            let timestamp = timestamps[n - 1];
            assert(before.covered[n - 1] == st.covered[n - 1]);
            assert(st.covered[n - 1] + lp_amount <= u64::MAX);
            if !(before.reached_end || before.cursor > timestamp) {
                let end_time = if reward.end_rewards_at < timestamp {
                    reward.end_rewards_at
                } else {
                    timestamp
                };
                Self::lemma_interval_fits(
                    before.total_rewards,
                    before.cursor,
                    end_time,
                    reward,
                    supply,
                    base_total,
                );
                Self::lemma_interval_on_track(
                    before.total_rewards,
                    before.cursor,
                    end_time,
                    reward,
                    supply,
                    base_total,
                    reward.start_at as int,
                );
            }
        }
    }

    /// A walk through the first `m` changes of a holder of the whole supply,
    /// with room in the numbers, succeeds, stays on track, and has counted
    /// no more in any snapshot than the liquidity tokens of those changes.
    proof fn lemma_changes_succeed(
        st: Accrual,
        changes: Seq<GlobalUserLpSnapshot>,
        m: nat,
        timestamps: Seq<u64>,
        reward: RewardInfo,
        supply: u64,
        base_total: int,
        covered: Seq<u64>,
    )
        requires
            supply > 0,
            m <= changes.len(),
            st.covered == covered,
            covered.len() == timestamps.len(),
            Self::on_track(st, base_total, reward.start_at as int, reward),
            Self::stream_fits(base_total, reward, supply),
            forall|j: int|
                0 <= j < covered.len() ==> #[trigger] covered[j] + changes_total(changes, changes.len())
                    <= u64::MAX,
        ensures
            accrue_changes(st, changes, m, timestamps, reward, supply, supply).is_some(),
            ({
                let after = accrue_changes(st, changes, m, timestamps, reward, supply, supply).unwrap();
                &&& Self::on_track(after, base_total, reward.start_at as int, reward)
                &&& after.covered.len() == covered.len()
                &&& forall|j: int|
                    0 <= j < covered.len() ==> #[trigger] after.covered[j] <= covered[j] + changes_total(
                        changes,
                        m,
                    )
            }),
        decreases m,
    {
        if m > 0 {
            Self::lemma_changes_succeed(
                st,
                changes,
                (m - 1) as nat,
                timestamps,
                reward,
                supply,
                base_total,
                covered,
            );
            let before = accrue_changes(st, changes, (m - 1) as nat, timestamps, reward, supply, supply).unwrap();
            let change = changes[m - 1];
            Self::lemma_changes_total_grows(changes, m, changes.len());
            if change.timestamp >= before.cursor {
                assert forall|j: int| 0 <= j < before.covered.len() implies #[trigger] before.covered[j]
                    + change.lp_amount <= u64::MAX by {
                    assert(before.covered[j] <= covered[j] + changes_total(changes, (m - 1) as nat));
                    assert(covered[j] + changes_total(changes, changes.len()) <= u64::MAX);
                }
                Self::lemma_snapshots_succeed(
                    before,
                    timestamps,
                    timestamps.len(),
                    change.lp_amount,
                    reward,
                    supply,
                    base_total,
                );
                let after = accrue_snapshots(
                    before,
                    timestamps,
                    timestamps.len(),
                    change.lp_amount,
                    reward,
                    supply,
                    supply,
                ).unwrap();
                assert forall|j: int| 0 <= j < covered.len() implies #[trigger] after.covered[j] <= covered[j]
                    + changes_total(changes, m) by {
                    assert(after.covered[j] <= before.covered[j] + change.lp_amount);
                    assert(before.covered[j] <= covered[j] + changes_total(changes, (m - 1) as nat));
                }
            } else {
                assert forall|j: int| 0 <= j < covered.len() implies #[trigger] before.covered[j] <= covered[j]
                    + changes_total(changes, m) by {
                    assert(before.covered[j] <= covered[j] + changes_total(changes, (m - 1) as nat));
                }
            }
        }
    }

    /// The liquidity tokens of a shorter run of changes are no more than
    /// those of a longer.
    proof fn lemma_changes_total_grows(changes: Seq<GlobalUserLpSnapshot>, n: nat, m: nat)
        requires
            n <= m,
        ensures
            0 <= changes_total(changes, n) <= changes_total(changes, m),
        decreases m,
    {
        if n < m {
            Self::lemma_changes_total_grows(changes, n, (m - 1) as nat);
        } else if n > 0 {
            Self::lemma_changes_total_grows(changes, (n - 1) as nat, (n - 1) as nat);
        }
    }

    /// The walk pays `emission_per_second` for every second that the cursor
    /// has moved from `base_cursor`, and the cursor does not pass the end of
    /// the stream.
    pub open spec fn on_track(st: Accrual, base_total: int, base_cursor: int, reward: RewardInfo) -> bool {
        &&& st.total_rewards == base_total + reward.emission_per_second * (st.cursor - base_cursor)
        &&& base_cursor <= st.cursor <= reward.end_rewards_at
        &&& st.reached_end ==> st.cursor == reward.end_rewards_at
    }

    /// One interval paid to a holder of the whole supply keeps the walk on
    /// track.
    proof fn lemma_interval_on_track(
        total_rewards: u64,
        cursor: u64,
        end_time: u64,
        reward: RewardInfo,
        supply: u64,
        base_total: int,
        base_cursor: int,
    )
        requires
            supply > 0,
            cursor <= end_time,
            total_rewards == base_total + reward.emission_per_second * (cursor - base_cursor),
            interval_reward(reward.emission_per_second, end_time - cursor, supply, supply).is_some(),
        ensures
            total_rewards + interval_reward(
                reward.emission_per_second,
                end_time - cursor,
                supply,
                supply,
            ).unwrap() == base_total + reward.emission_per_second * (end_time - base_cursor),
    {
        let e = reward.emission_per_second as int;
        let d = end_time - cursor;
        let s = supply as int;
        assert((e * d * s) / s == e * d) by (nonlinear_arith)
            requires
                s > 0,
        ;
        assert(e * (cursor - base_cursor) + e * d == e * (end_time - base_cursor)) by (nonlinear_arith)
            requires
                d == end_time - cursor,
        ;
    }

    /// A walk through snapshots, for a holder of the whole supply, stays on
    /// track.
    proof fn lemma_snapshots_on_track(
        st: Accrual,
        timestamps: Seq<u64>,
        n: nat,
        lp_amount: u64,
        reward: RewardInfo,
        supply: u64,
        base_total: int,
        base_cursor: int,
    )
        requires
            supply > 0,
            Self::on_track(st, base_total, base_cursor, reward),
            accrue_snapshots(st, timestamps, n, lp_amount, reward, supply, supply).is_some(),
        ensures
            Self::on_track(
                accrue_snapshots(st, timestamps, n, lp_amount, reward, supply, supply).unwrap(),
                base_total,
                base_cursor,
                reward,
            ),
        decreases n,
    {
        if n > 0 {
            Self::lemma_snapshots_on_track(
                st,
                timestamps,
                (n - 1) as nat,
                lp_amount,
                reward,
                supply,
                base_total,
                base_cursor,
            );
            let before = accrue_snapshots(st, timestamps, (n - 1) as nat, lp_amount, reward, supply, supply).unwrap();
            let timestamp = timestamps[n - 1];
            if !(before.reached_end || before.cursor > timestamp) {
                let end_time = if reward.end_rewards_at < timestamp {
                    reward.end_rewards_at
                } else {
                    timestamp
                };
                Self::lemma_interval_on_track(
                    before.total_rewards,
                    before.cursor,
                    end_time,
                    reward,
                    supply,
                    base_total,
                    base_cursor,
                );
            }
        }
    }

    /// A walk through the changes of a holder of the whole supply stays on
    /// track.
    proof fn lemma_changes_on_track(
        st: Accrual,
        changes: Seq<GlobalUserLpSnapshot>,
        m: nat,
        timestamps: Seq<u64>,
        reward: RewardInfo,
        supply: u64,
        base_total: int,
        base_cursor: int,
    )
        requires
            supply > 0,
            Self::on_track(st, base_total, base_cursor, reward),
            accrue_changes(st, changes, m, timestamps, reward, supply, supply).is_some(),
        ensures
            Self::on_track(
                accrue_changes(st, changes, m, timestamps, reward, supply, supply).unwrap(),
                base_total,
                base_cursor,
                reward,
            ),
        decreases m,
    {
        if m > 0 {
            Self::lemma_changes_on_track(
                st,
                changes,
                (m - 1) as nat,
                timestamps,
                reward,
                supply,
                base_total,
                base_cursor,
            );
            let before = accrue_changes(st, changes, (m - 1) as nat, timestamps, reward, supply, supply).unwrap();
            if changes[m - 1].timestamp >= before.cursor {
                Self::lemma_snapshots_on_track(
                    before,
                    timestamps,
                    timestamps.len(),
                    changes[m - 1].lp_amount,
                    reward,
                    supply,
                    base_total,
                    base_cursor,
                );
            }
        }
    }

    /// A walk through the snapshots that has failed stays failed.
    proof fn lemma_snapshots_stay_failed(
        st: Accrual,
        timestamps: Seq<u64>,
        n: nat,
        m: nat,
        lp_amount: u64,
        reward: RewardInfo,
        lp_owned: u64,
        supply: u64,
    )
        requires
            n <= m,
            accrue_snapshots(st, timestamps, n, lp_amount, reward, lp_owned, supply).is_none(),
        ensures
            accrue_snapshots(st, timestamps, m, lp_amount, reward, lp_owned, supply).is_none(),
        decreases m,
    {
        if n < m {
            Self::lemma_snapshots_stay_failed(
                st,
                timestamps,
                n,
                (m - 1) as nat,
                lp_amount,
                reward,
                lp_owned,
                supply,
            );
        }
    }

    /// A walk through the changes that has failed stays failed.
    proof fn lemma_changes_stay_failed(
        st: Accrual,
        changes: Seq<GlobalUserLpSnapshot>,
        n: nat,
        m: nat,
        timestamps: Seq<u64>,
        reward: RewardInfo,
        lp_owned: u64,
        supply: u64,
    )
        requires
            n <= m,
            accrue_changes(st, changes, n, timestamps, reward, lp_owned, supply).is_none(),
        ensures
            accrue_changes(st, changes, m, timestamps, reward, lp_owned, supply).is_none(),
        decreases m,
    {
        if n < m {
            Self::lemma_changes_stay_failed(
                st,
                changes,
                n,
                (m - 1) as nat,
                timestamps,
                reward,
                lp_owned,
                supply,
            );
        }
    }
}

impl GlobalUserLpRecentChange {
    /// A record with no change and nothing computed.
    pub fn new() -> (record: GlobalUserLpRecentChange)
        ensures
            record.lp_snapshots@.len() == 0,
            forall|i: int| 0 <= i < 3 ==> record.rewards_calculated_upto@[i] == 0,
    {
        GlobalUserLpRecentChange { rewards_calculated_upto: [0u64; 3], lp_snapshots: Vec::new() }
    }

    /// The changes that [`GlobalUserLpRecentChange::remove_in_active_snapshots`]
    /// leaves.
    pub open spec fn spec_after_removal(&self, global_rewards: &GlobalRewardInfo) -> Seq<GlobalUserLpSnapshot> {
        changes_after_removal(
            global_rewards.active_boosted_reward_info@,
            self.rewards_calculated_upto@,
            self.lp_snapshots@,
        )
    }

    /// Drops the oldest changes that every slot has been computed past.
    /// Changes leave from the front only. Where the pool has no stream, no
    /// change stays.
    pub fn remove_in_active_snapshots(&mut self, global_rewards: &GlobalRewardInfo) -> (r: Result<(), GammaError>)
        ensures
            r.is_ok(),
            final(self).rewards_calculated_upto == old(self).rewards_calculated_upto,
            final(self).lp_snapshots@ == old(self).spec_after_removal(global_rewards),
    {
        if !global_rewards.has_any_active_rewards() {
            self.lp_snapshots.clear();
            return Ok(());
        }
        let mut before = self.rewards_calculated_upto[0];
        if self.rewards_calculated_upto[1] < before {
            before = self.rewards_calculated_upto[1];
        }
        if self.rewards_calculated_upto[2] < before {
            before = self.rewards_calculated_upto[2];
        }
        while self.lp_snapshots.len() > 0
            invariant
                self.rewards_calculated_upto == old(self).rewards_calculated_upto,
                before == least_of(self.rewards_calculated_upto@),
                any_slot_taken(global_rewards.active_boosted_reward_info@),
                without_older(self.lp_snapshots@, before) == without_older(old(self).lp_snapshots@, before),
            decreases self.lp_snapshots.len(),
        {
            if self.lp_snapshots[0].timestamp >= before {
                return Ok(());
            }
            proof {
                assert(self.lp_snapshots@.remove(0) =~= self.lp_snapshots@.drop_first());
            }
            self.lp_snapshots.remove(0);
        }
        Ok(())
    }

    /// Records that the holder has `lp_owned_by_user` liquidity tokens from
    /// `timestamp` on. Where the pool has no stream, nothing is recorded.
    pub fn append_snapshot(&mut self, lp_owned_by_user: u64, timestamp: u64, global_rewards: &GlobalRewardInfo)
        ensures
            final(self).rewards_calculated_upto == old(self).rewards_calculated_upto,
            final(self).lp_snapshots@ == if any_slot_taken(global_rewards.active_boosted_reward_info@) {
                old(self).lp_snapshots@.push(
                    GlobalUserLpSnapshot { lp_amount: lp_owned_by_user, timestamp },
                )
            } else {
                old(self).lp_snapshots@
            },
    {
        if !global_rewards.has_any_active_rewards() {
            return ;
        }
        self.lp_snapshots.push(GlobalUserLpSnapshot { lp_amount: lp_owned_by_user, timestamp });
    }
}

} // verus!
