use crate::error::GammaError;
use crate::utils::pubkey::Pubkey;
use vstd::prelude::*;

verus! {

/// The number of reward streams that a pool can have at a time.
pub const MAX_REWARDS: usize = 3;

/// The supply of liquidity tokens at one moment, and for each reward slot
/// how much of that supply has had its reward up to that moment computed.
#[derive(Clone, Copy, Debug)]
pub struct Snapshot {
    pub reward_calculated_for_lp_amount: [u64; 3],
    pub total_lp_amount: u64,
    pub timestamp: u64,
}

/// The reward streams of a pool and the history of its supply that they are
/// shared by.
///
/// A slot of the table is free when its address is the all-zero one. The
/// snapshots are in the order in which they were taken, and only the oldest
/// ones are ever removed.
#[derive(Debug)]
pub struct GlobalRewardInfo {
    pub active_boosted_reward_info: [Pubkey; 3],
    pub reward_calculated_for_lp_amount: [u64; 3],
    pub start_times: [Option<u64>; 3],
    pub snapshots: Vec<Snapshot>,
}

/// The first free slot of the table, if there is one.
pub open spec fn first_free_slot(table: Seq<Pubkey>) -> Option<int> {
    if table[0] == Pubkey::spec_default() {
        Some(0)
    } else if table[1] == Pubkey::spec_default() {
        Some(1)
    } else if table[2] == Pubkey::spec_default() {
        Some(2)
    } else {
        None
    }
}

/// The first slot of the table that holds `key`, if there is one.
pub open spec fn slot_of(table: Seq<Pubkey>, key: Pubkey) -> Option<int> {
    if table[0] == key {
        Some(0)
    } else if table[1] == key {
        Some(1)
    } else if table[2] == key {
        Some(2)
    } else {
        None
    }
}

/// Whether a slot of the table is taken.
pub open spec fn any_slot_taken(table: Seq<Pubkey>) -> bool {
    table[0] != Pubkey::spec_default() || table[1] != Pubkey::spec_default() || table[2]
        != Pubkey::spec_default()
}

/// A start time, and the largest number for none.
pub open spec fn start_or_max(start: Option<u64>) -> u64 {
    match start {
        Some(t) => t,
        None => u64::MAX,
    }
}

/// The earliest of the start times, and the largest number where there is
/// none.
pub open spec fn earliest_start(start_times: Seq<Option<u64>>) -> u64 {
    let a = start_or_max(start_times[0]);
    let b = start_or_max(start_times[1]);
    let c = start_or_max(start_times[2]);
    let ab = if a <= b {
        a
    } else {
        b
    };
    if ab <= c {
        ab
    } else {
        c
    }
}

/// Whether a stream in the table still has part of the supply of the
/// snapshot to compute.
pub open spec fn snapshot_is_needed(snapshot: Snapshot, table: Seq<Pubkey>) -> bool {
    exists|i: int|
        0 <= i < 3 && table[i] != Pubkey::spec_default()
            && snapshot.total_lp_amount != #[trigger] snapshot.reward_calculated_for_lp_amount@[i]
}

/// Whether a snapshot has to stay: it is not older than the earliest stream,
/// and a stream still needs it.
pub open spec fn snapshot_is_kept(snapshot: Snapshot, table: Seq<Pubkey>, earliest: u64) -> bool {
    snapshot.timestamp >= earliest && snapshot_is_needed(snapshot, table)
}

/// The snapshots without the oldest ones that need not stay: what is left
/// starts with the first snapshot that has to stay.
pub open spec fn pruned(snapshots: Seq<Snapshot>, table: Seq<Pubkey>, earliest: u64) -> Seq<Snapshot>
    decreases snapshots.len(),
{
    if snapshots.len() == 0 || snapshot_is_kept(snapshots[0], table, earliest) {
        snapshots
    } else {
        pruned(snapshots.drop_first(), table, earliest)
    }
}

/// Whether the snapshots are in the order of their time.
pub open spec fn time_ordered(snapshots: Seq<Snapshot>) -> bool {
    forall|i: int, j: int|
        0 <= i < j < snapshots.len() ==> (#[trigger] snapshots[i]).timestamp <= (
        #[trigger] snapshots[j]).timestamp
}

/// The snapshots that stay for the streams in the table: none where no
/// stream is in the table or none has a start time, else all but the oldest
/// ones that need not stay.
pub open spec fn snapshots_after_pruning(
    table: Seq<Pubkey>,
    start_times: Seq<Option<u64>>,
    snapshots: Seq<Snapshot>,
) -> Seq<Snapshot> {
    let earliest = earliest_start(start_times);
    if !any_slot_taken(table) || earliest == u64::MAX {
        Seq::empty()
    } else {
        pruned(snapshots, table, earliest)
    }
}

impl GlobalRewardInfo {
    /// The snapshots that [`GlobalRewardInfo::remove_all_inactive_snapshots`]
    /// leaves.
    pub open spec fn spec_snapshots_after_pruning(&self) -> Seq<Snapshot> {
        snapshots_after_pruning(self.active_boosted_reward_info@, self.start_times@, self.snapshots@)
    }

    /// A table with no stream and no snapshot.
    pub fn new() -> (info: GlobalRewardInfo)
        ensures
            !any_slot_taken(info.active_boosted_reward_info@),
            forall|i: int| 0 <= i < 3 ==> info.reward_calculated_for_lp_amount@[i] == 0,
            forall|i: int| 0 <= i < 3 ==> info.start_times@[i].is_none(),
            info.snapshots@.len() == 0,
    {
        GlobalRewardInfo {
            active_boosted_reward_info: [Pubkey::default(); 3],
            reward_calculated_for_lp_amount: [0u64; 3],
            start_times: [None; 3],
            snapshots: Vec::new(),
        }
    }

    /// Puts a stream into the first free slot of the table, with its start
    /// time and nothing computed yet. With no free slot the table is left as
    /// it is and the error is `MaxRewardsReached`.
    pub fn add_new_active_reward(&mut self, reward_info: Pubkey, start_time: u64) -> (r: Result<(), GammaError>)
        ensures
            final(self).snapshots == old(self).snapshots,
            match first_free_slot(old(self).active_boosted_reward_info@) {
                Some(i) => {
                    &&& r.is_ok()
                    &&& final(self).active_boosted_reward_info@ == old(
                        self,
                    ).active_boosted_reward_info@.update(i, reward_info)
                    &&& final(self).start_times@ == old(self).start_times@.update(i, Some(start_time))
                    &&& final(self).reward_calculated_for_lp_amount@ == old(
                        self,
                    ).reward_calculated_for_lp_amount@.update(i, 0)
                },
                None => {
                    &&& r == Err::<(), GammaError>(GammaError::MaxRewardsReached)
                    &&& final(self).active_boosted_reward_info == old(self).active_boosted_reward_info
                    &&& final(self).start_times == old(self).start_times
                    &&& final(self).reward_calculated_for_lp_amount == old(self).reward_calculated_for_lp_amount
                },
            },
    {
        let mut i: usize = 0;
        while i < MAX_REWARDS
            invariant
                i <= MAX_REWARDS,
                *self == *old(self),
                forall|j: int| 0 <= j < i ==> self.active_boosted_reward_info@[j] != Pubkey::spec_default(),
            decreases MAX_REWARDS - i,
        {
            if self.active_boosted_reward_info[i].is_default() {
                self.active_boosted_reward_info[i] = reward_info;
                self.start_times[i] = Some(start_time);
                self.reward_calculated_for_lp_amount[i] = 0;
                return Ok(());
            }
            i += 1;
        }
        Err(GammaError::MaxRewardsReached)
    }

    /// Whether a stream is in the table.
    pub fn has_any_active_rewards(&self) -> (r: bool)
        ensures
            r == any_slot_taken(self.active_boosted_reward_info@),
    {
        let mut i: usize = 0;
        while i < MAX_REWARDS
            invariant
                i <= MAX_REWARDS,
                forall|j: int| 0 <= j < i ==> self.active_boosted_reward_info@[j] == Pubkey::spec_default(),
            decreases MAX_REWARDS - i,
        {
            if !self.active_boosted_reward_info[i].is_default() {
                return true;
            }
            i += 1;
        }
        false
    }

    /// The first slot that holds the stream `reward_key`.
    pub fn reward_slot(&self, reward_key: &Pubkey) -> (slot: Option<usize>)
        ensures
            match slot {
                Some(i) => i < MAX_REWARDS && slot_of(self.active_boosted_reward_info@, *reward_key) == Some(
                    i as int,
                ),
                None => slot_of(self.active_boosted_reward_info@, *reward_key).is_none(),
            },
    {
        let mut i: usize = 0;
        while i < MAX_REWARDS
            invariant
                i <= MAX_REWARDS,
                forall|j: int| 0 <= j < i ==> self.active_boosted_reward_info@[j] != *reward_key,
            decreases MAX_REWARDS - i,
        {
            if self.active_boosted_reward_info[i] == *reward_key {
                return Some(i);
            }
            i += 1;
        }
        None
    }

    /// Records the supply of liquidity tokens at `timestamp`, with what each
    /// stream has computed so far. Without a stream in the table nothing is
    /// recorded.
    pub fn append_snapshot(&mut self, total_lp_amount: u64, timestamp: u64)
        ensures
            final(self).active_boosted_reward_info == old(self).active_boosted_reward_info,
            final(self).start_times == old(self).start_times,
            final(self).reward_calculated_for_lp_amount == old(self).reward_calculated_for_lp_amount,
            final(self).snapshots@ == if any_slot_taken(old(self).active_boosted_reward_info@) {
                old(self).snapshots@.push(
                    Snapshot {
                        reward_calculated_for_lp_amount: old(self).reward_calculated_for_lp_amount,
                        total_lp_amount,
                        timestamp,
                    },
                )
            } else {
                old(self).snapshots@
            },
            time_ordered(old(self).snapshots@) && (old(self).snapshots@.len() == 0 || old(
                self,
            ).snapshots@.last().timestamp <= timestamp) ==> time_ordered(final(self).snapshots@),
    {
        if !self.has_any_active_rewards() {
            return ;
        }
        self.snapshots.push(
            Snapshot {
                total_lp_amount,
                timestamp,
                reward_calculated_for_lp_amount: self.reward_calculated_for_lp_amount,
            },
        );
    }

    /// Takes a stream that has ended out of the table: where
    /// `reward_is_active` is false, the first slot that holds `reward_key`
    /// is freed and loses its start time.
    pub fn remove_inactive_rewards(&mut self, reward_key: &Pubkey, reward_is_active: bool)
        ensures
            final(self).snapshots == old(self).snapshots,
            final(self).reward_calculated_for_lp_amount == old(self).reward_calculated_for_lp_amount,
            match slot_of(old(self).active_boosted_reward_info@, *reward_key) {
                Some(i) => if reward_is_active {
                    &&& final(self).active_boosted_reward_info == old(self).active_boosted_reward_info
                    &&& final(self).start_times == old(self).start_times
                } else {
                    &&& final(self).active_boosted_reward_info@ == old(
                        self,
                    ).active_boosted_reward_info@.update(i, Pubkey::spec_default())
                    &&& final(self).start_times@ == old(self).start_times@.update(i, None)
                },
                None => {
                    &&& final(self).active_boosted_reward_info == old(self).active_boosted_reward_info
                    &&& final(self).start_times == old(self).start_times
                },
            },
    {
        if reward_is_active {
            return ;
        }
        let mut i: usize = 0;
        while i < MAX_REWARDS
            invariant
                i <= MAX_REWARDS,
                !reward_is_active,
                *self == *old(self),
                forall|j: int| 0 <= j < i ==> self.active_boosted_reward_info@[j] != *reward_key,
            decreases MAX_REWARDS - i,
        {
            if self.active_boosted_reward_info[i] == *reward_key {
                self.active_boosted_reward_info[i] = Pubkey::default();
                self.start_times[i] = None;
                return ;
            }
            i += 1;
        }
    }

    /// The earliest start time in the table, and the largest number where
    /// there is none.
    pub fn min_start_time(&self) -> (earliest: u64)
        ensures
            earliest == earliest_start(self.start_times@),
    {
        let mut earliest: u64 = u64::MAX;
        if let Some(t) = self.start_times[0] {
            if t < earliest {
                earliest = t;
            }
        }
        if let Some(t) = self.start_times[1] {
            if t < earliest {
                earliest = t;
            }
        }
        if let Some(t) = self.start_times[2] {
            if t < earliest {
                earliest = t;
            }
        }
        earliest
    }

    /// Whether the snapshot has to stay in the queue.
    pub fn keeps_snapshot(&self, snapshot: &Snapshot, earliest: u64) -> (kept: bool)
        ensures
            kept == snapshot_is_kept(*snapshot, self.active_boosted_reward_info@, earliest),
    {
        if snapshot.timestamp < earliest {
            return false;
        }
        let mut i: usize = 0;
        while i < MAX_REWARDS
            invariant
                i <= MAX_REWARDS,
                snapshot.timestamp >= earliest,
                forall|j: int|
                    0 <= j < i ==> !(self.active_boosted_reward_info@[j] != Pubkey::spec_default()
                        && snapshot.total_lp_amount != #[trigger] snapshot.reward_calculated_for_lp_amount@[j]),
            decreases MAX_REWARDS - i,
        {
            if !self.active_boosted_reward_info[i].is_default() && snapshot.total_lp_amount
                != snapshot.reward_calculated_for_lp_amount[i] {
                assert(0 <= i < 3 && self.active_boosted_reward_info@[i as int] != Pubkey::spec_default()
                    && snapshot.total_lp_amount != snapshot.reward_calculated_for_lp_amount@[i as int]);
                return true;
            }
            i += 1;
        }
        false
    }

    /// Drops the oldest snapshots that no stream needs any more.
    ///
    /// A snapshot need not stay when it is older than the earliest stream in
    /// the table, or when every stream in the table has computed the whole
    /// supply of it. Snapshots leave from the front only: the first one that
    /// has to stay keeps all that follow it. With no stream in the table, or
    /// none with a start time, no snapshot stays.
    ///
    /// What is left is empty or starts with a snapshot that is not older
    /// than the earliest stream and that a stream still needs.
    pub fn remove_all_inactive_snapshots(&mut self)
        ensures
            final(self).active_boosted_reward_info == old(self).active_boosted_reward_info,
            final(self).start_times == old(self).start_times,
            final(self).reward_calculated_for_lp_amount == old(self).reward_calculated_for_lp_amount,
            final(self).snapshots@ == old(self).spec_snapshots_after_pruning(),
            final(self).snapshots@.len() > 0 ==> {
                &&& final(self).snapshots@[0].timestamp >= earliest_start(final(self).start_times@)
                &&& snapshot_is_needed(final(self).snapshots@[0], final(self).active_boosted_reward_info@)
            },
            exists|k: int|
                0 <= k <= old(self).snapshots@.len() && final(self).snapshots@ == old(self).snapshots@.skip(k),
            time_ordered(old(self).snapshots@) ==> time_ordered(final(self).snapshots@),
    {
        if !self.has_any_active_rewards() {
            self.snapshots.clear();
            assert(self.snapshots@ == old(self).snapshots@.skip(old(self).snapshots@.len() as int));
            return ;
        }
        let earliest = self.min_start_time();
        if earliest == u64::MAX {
            self.snapshots.clear();
            assert(self.snapshots@ == old(self).snapshots@.skip(old(self).snapshots@.len() as int));
            return ;
        }
        let ghost mut removed: int = 0;
        proof {
            assert(old(self).snapshots@.skip(0) =~= old(self).snapshots@);
        }
        while self.snapshots.len() > 0
            invariant
                self.active_boosted_reward_info == old(self).active_boosted_reward_info,
                self.start_times == old(self).start_times,
                self.reward_calculated_for_lp_amount == old(self).reward_calculated_for_lp_amount,
                earliest == earliest_start(self.start_times@),
                earliest != u64::MAX,
                any_slot_taken(self.active_boosted_reward_info@),
                0 <= removed <= old(self).snapshots@.len(),
                self.snapshots@ == old(self).snapshots@.skip(removed),
                pruned(self.snapshots@, self.active_boosted_reward_info@, earliest) == pruned(
                    old(self).snapshots@,
                    old(self).active_boosted_reward_info@,
                    earliest,
                ),
            decreases self.snapshots.len(),
        {
            let front = self.snapshots[0];
            if self.keeps_snapshot(&front, earliest) {
                return ;
            }
            proof {
                assert(self.snapshots@.drop_first() =~= old(self).snapshots@.skip(removed + 1));
                removed = removed + 1;
            }
            self.snapshots.remove(0);
            proof {
                assert(self.snapshots@ =~= old(self).snapshots@.skip(removed));
            }
        }
    }
}

} // verus!
