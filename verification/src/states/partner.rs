use crate::error::GammaError;
use crate::utils::pubkey::Pubkey;
use vstd::prelude::*;

verus! {

/// The number of partners that a pool can have.
pub const PARTNER_SIZE: usize = 5;

/// The longest name of a partner, in bytes.
pub const MAX_NAME_LEN: usize = 20;

/// A protocol that takes part in the partner programme of a pool.
#[derive(Debug)]
pub struct Partner {
    pub name: String,
    pub authority: Pubkey,
    pub pool_state: Pubkey,
    /// Where the partner receives its fees in token 0.
    pub token_0_token_account: Pubkey,
    /// Where the partner receives its fees in token 1.
    pub token_1_token_account: Pubkey,
}

/// What a pool keeps of one partner. A slot whose address is the all-zero
/// one is free.
#[derive(Clone, Copy, Debug)]
pub struct PartnerInfo {
    pub partner: Pubkey,
    /// The liquidity tokens held by those whom the partner brought.
    pub lp_token_linked_with_partner: u64,
    pub total_claimed_fee_amount_token_0: u64,
    pub total_claimed_fee_amount_token_1: u64,
    pub total_earned_fee_amount_token_0: u64,
    pub total_earned_fee_amount_token_1: u64,
}

/// The partners of a pool, and the fee counters of the pool as they stood
/// when the partners' earnings were last brought up to date.
#[derive(Clone, Copy, Debug)]
pub struct PoolPartnerInfos {
    pub last_observed_fee_amount_token_0: u64,
    pub last_observed_fee_amount_token_1: u64,
    pub infos: [PartnerInfo; 5],
}

/// Whether the slot holds a partner.
pub open spec fn is_registered(info: PartnerInfo) -> bool {
    info.partner != Pubkey::spec_default()
}

/// The liquidity tokens linked with the partners in the first `n` slots.
pub open spec fn linked_total(infos: Seq<PartnerInfo>, n: nat) -> int
    decreases n,
{
    if n == 0 {
        0
    } else {
        linked_total(infos, (n - 1) as nat) + if is_registered(infos[n - 1]) {
            infos[n - 1].lp_token_linked_with_partner as int
        } else {
            0
        }
    }
}

/// The number of partners in the first `n` slots.
pub open spec fn registered_count(infos: Seq<PartnerInfo>, n: nat) -> int
    decreases n,
{
    if n == 0 {
        0
    } else {
        registered_count(infos, (n - 1) as nat) + if is_registered(infos[n - 1]) {
            1int
        } else {
            0int
        }
    }
}

/// The share of `fees` that falls to `linked` out of `total` linked
/// liquidity tokens, rounded down.
pub open spec fn fee_share(fees: int, linked: int, total: int) -> int {
    (fees * linked) / total
}

/// A slot after the fees `fees_0` and `fees_1` have been shared out: a
/// partner has earned its share of each, a free slot is as it was.
pub open spec fn credited(info: PartnerInfo, fees_0: int, fees_1: int, total: int) -> PartnerInfo {
    if is_registered(info) {
        PartnerInfo {
            total_earned_fee_amount_token_0: (info.total_earned_fee_amount_token_0 + fee_share(
                fees_0,
                info.lp_token_linked_with_partner as int,
                total,
            )) as u64,
            total_earned_fee_amount_token_1: (info.total_earned_fee_amount_token_1 + fee_share(
                fees_1,
                info.lp_token_linked_with_partner as int,
                total,
            )) as u64,
            ..info
        }
    } else {
        info
    }
}

/// Whether a counter of the slot has no room for its share.
pub open spec fn credit_overflows(info: PartnerInfo, fees_0: int, fees_1: int, total: int) -> bool {
    &&& is_registered(info)
    &&& (info.total_earned_fee_amount_token_0 + fee_share(
        fees_0,
        info.lp_token_linked_with_partner as int,
        total,
    ) > u64::MAX || info.total_earned_fee_amount_token_1 + fee_share(
        fees_1,
        info.lp_token_linked_with_partner as int,
        total,
    ) > u64::MAX)
}

/// What the partners in the first `n` slots have earned of token 0.
pub open spec fn earned_total_token_0(infos: Seq<PartnerInfo>, n: nat) -> int
    decreases n,
{
    if n == 0 {
        0
    } else {
        earned_total_token_0(infos, (n - 1) as nat) + if is_registered(infos[n - 1]) {
            infos[n - 1].total_earned_fee_amount_token_0 as int
        } else {
            0
        }
    }
}

/// What the partners in the first `n` slots have earned of token 1.
pub open spec fn earned_total_token_1(infos: Seq<PartnerInfo>, n: nat) -> int
    decreases n,
{
    if n == 0 {
        0
    } else {
        earned_total_token_1(infos, (n - 1) as nat) + if is_registered(infos[n - 1]) {
            infos[n - 1].total_earned_fee_amount_token_1 as int
        } else {
            0
        }
    }
}

/// The first slot that holds `partner`, if there is one.
pub open spec fn partner_slot(infos: Seq<PartnerInfo>, partner: Pubkey, n: nat) -> Option<int>
    decreases n,
{
    if n == 0 {
        None
    } else {
        match partner_slot(infos, partner, (n - 1) as nat) {
            Some(i) => Some(i),
            None => if infos[n - 1].partner == partner {
                Some(n - 1)
            } else {
                None
            },
        }
    }
}

impl PartnerInfo {
    pub open spec fn spec_default() -> PartnerInfo {
        PartnerInfo {
            partner: Pubkey::spec_default(),
            lp_token_linked_with_partner: 0,
            total_claimed_fee_amount_token_0: 0,
            total_claimed_fee_amount_token_1: 0,
            total_earned_fee_amount_token_0: 0,
            total_earned_fee_amount_token_1: 0,
        }
    }

    /// A slot for `partner` with every counter at zero.
    pub open spec fn spec_fresh(partner: Pubkey) -> PartnerInfo {
        PartnerInfo { partner, ..PartnerInfo::spec_default() }
    }

    pub fn fresh(partner: Pubkey) -> (info: PartnerInfo)
        ensures
            info == PartnerInfo::spec_fresh(partner),
    {
        PartnerInfo {
            partner,
            lp_token_linked_with_partner: 0,
            total_claimed_fee_amount_token_0: 0,
            total_claimed_fee_amount_token_1: 0,
            total_earned_fee_amount_token_0: 0,
            total_earned_fee_amount_token_1: 0,
        }
    }
}

impl Default for PartnerInfo {
    fn default() -> (info: PartnerInfo)
        ensures
            info == PartnerInfo::spec_default(),
    {
        PartnerInfo::fresh(Pubkey::default())
    }
}

impl PoolPartnerInfos {
    /// The liquidity tokens linked with all partners fit a 64-bit counter, as
    /// the supply of liquidity tokens does.
    pub open spec fn wf(&self) -> bool {
        linked_total(self.infos@, PARTNER_SIZE as nat) <= u64::MAX
    }

    /// The liquidity tokens linked with all partners.
    pub open spec fn spec_total_linked(&self) -> int {
        linked_total(self.infos@, PARTNER_SIZE as nat)
    }

    /// The first slot that holds `partner`, if there is one.
    pub open spec fn spec_slot(&self, partner: Pubkey) -> Option<int> {
        partner_slot(self.infos@, partner, PARTNER_SIZE as nat)
    }

    /// The first free slot, if there is one.
    pub open spec fn spec_free_slot(&self) -> Option<int> {
        partner_slot(self.infos@, Pubkey::spec_default(), PARTNER_SIZE as nat)
    }

    /// Whether the fees of the pool can be shared out: the counters of the
    /// pool have not fallen, and no counter of a partner overflows.
    pub open spec fn spec_update_error(&self, fees_0: u64, fees_1: u64) -> Option<GammaError> {
        let total = self.spec_total_linked();
        let new_0 = fees_0 - self.last_observed_fee_amount_token_0;
        let new_1 = fees_1 - self.last_observed_fee_amount_token_1;
        if total == 0 {
            None
        } else if new_0 < 0 || new_1 < 0 {
            Some(GammaError::MathError)
        } else if exists|i: int| 0 <= i < PARTNER_SIZE && #[trigger] credit_overflows(self.infos@[i], new_0, new_1, total) {
            Some(GammaError::MathOverflow)
        } else {
            None
        }
    }

    /// The slots after the fees were shared out.
    pub open spec fn spec_credited_infos(&self, fees_0: u64, fees_1: u64) -> Seq<PartnerInfo> {
        Seq::new(
            PARTNER_SIZE as nat,
            |i: int|
                credited(
                    self.infos@[i],
                    fees_0 - self.last_observed_fee_amount_token_0,
                    fees_1 - self.last_observed_fee_amount_token_1,
                    self.spec_total_linked(),
                ),
        )
    }

    /// The slots after the counters `fees_0` and `fees_1` of the pool were
    /// shared out: as they were where no liquidity token is linked.
    pub open spec fn spec_infos_after_sharing(&self, fees_0: u64, fees_1: u64) -> Seq<PartnerInfo> {
        if self.spec_total_linked() == 0 {
            self.infos@
        } else {
            self.spec_credited_infos(fees_0, fees_1)
        }
    }

    /// Whether `after` is the table once the counters `fees_0` and `fees_1`
    /// of the pool were shared out: as it was where no liquidity token is
    /// linked, else with every partner credited and the counters noted.
    pub open spec fn spec_shared_out(&self, after: PoolPartnerInfos, fees_0: u64, fees_1: u64) -> bool {
        if self.spec_total_linked() == 0 {
            after == *self
        } else {
            &&& after.last_observed_fee_amount_token_0 == fees_0
            &&& after.last_observed_fee_amount_token_1 == fees_1
            &&& after.infos@ == self.spec_credited_infos(fees_0, fees_1)
        }
    }

    /// A table with no partner.
    pub fn new() -> (table: PoolPartnerInfos)
        ensures
            table.last_observed_fee_amount_token_0 == 0,
            table.last_observed_fee_amount_token_1 == 0,
            forall|i: int| 0 <= i < PARTNER_SIZE ==> table.infos@[i] == PartnerInfo::spec_default(),
            table.wf(),
    {
        let table = PoolPartnerInfos {
            last_observed_fee_amount_token_0: 0,
            last_observed_fee_amount_token_1: 0,
            infos: [PartnerInfo::default(); 5],
        };
        proof {
            Self::lemma_linked_total_of_free_slots(table.infos@, PARTNER_SIZE as nat);
        }
        table
    }

    /// Empties every slot. The counters of the pool as last observed stay.
    pub fn initialize(&mut self) -> (r: Result<(), GammaError>)
        ensures
            r.is_ok(),
            final(self).last_observed_fee_amount_token_0 == old(self).last_observed_fee_amount_token_0,
            final(self).last_observed_fee_amount_token_1 == old(self).last_observed_fee_amount_token_1,
            forall|i: int| 0 <= i < PARTNER_SIZE ==> final(self).infos@[i] == PartnerInfo::spec_default(),
            final(self).wf(),
    {
        self.infos = [PartnerInfo::default(); 5];
        proof {
            Self::lemma_linked_total_of_free_slots(self.infos@, PARTNER_SIZE as nat);
        }
        Ok(())
    }

    /// The first slot that holds `partner`.
    pub fn slot_of(&self, partner: &Pubkey) -> (slot: Option<usize>)
        ensures
            match slot {
                Some(i) => self.spec_slot(*partner) == Some(i as int) && i < PARTNER_SIZE,
                None => self.spec_slot(*partner).is_none(),
            },
            slot.is_some() ==> self.infos@[slot.unwrap() as int].partner == *partner,
    {
        let mut i: usize = 0;
        while i < PARTNER_SIZE
            invariant
                i <= PARTNER_SIZE,
                partner_slot(self.infos@, *partner, i as nat).is_none(),
            decreases PARTNER_SIZE - i,
        {
            if self.infos[i].partner == *partner {
                proof {
                    Self::lemma_slot_found(self.infos@, *partner, i as int, PARTNER_SIZE as nat);
                }
                return Some(i);
            }
            i += 1;
        }
        None
    }

    /// Puts `partner` into the first free slot, with every counter at zero.
    /// With no free slot the table is left as it is and the error is
    /// `ExceededMaxPartnersForPool`.
    pub fn add_new(&mut self, partner: Pubkey) -> (r: Result<(), GammaError>)
        ensures
            old(self).wf() ==> final(self).wf(),
            final(self).last_observed_fee_amount_token_0 == old(self).last_observed_fee_amount_token_0,
            final(self).last_observed_fee_amount_token_1 == old(self).last_observed_fee_amount_token_1,
            match old(self).spec_free_slot() {
                Some(i) => r.is_ok() && final(self).infos@ == old(self).infos@.update(
                    i,
                    PartnerInfo::spec_fresh(partner),
                ),
                None => r == Err::<(), GammaError>(GammaError::ExceededMaxPartnersForPool) && final(self).infos
                    == old(self).infos,
            },
    {
        let zero = Pubkey::default();
        match self.slot_of(&zero) {
            Some(i) => {
                self.infos[i] = PartnerInfo::fresh(partner);
                proof {
                    Self::lemma_linked_total_after_reset(
                        old(self).infos@,
                        self.infos@,
                        i as int,
                        PARTNER_SIZE as nat,
                    );
                }
                Ok(())
            },
            None => Err(GammaError::ExceededMaxPartnersForPool),
        }
    }

    /// Whether `partner` is in the table.
    pub fn has(&self, partner: &Pubkey) -> (found: bool)
        ensures
            found == self.spec_slot(*partner).is_some(),
    {
        self.info(partner).is_some()
    }

    /// What the table keeps of `partner`.
    pub fn info(&self, partner: &Pubkey) -> (found: Option<&PartnerInfo>)
        ensures
            match self.spec_slot(*partner) {
                Some(i) => found == Some(&self.infos@[i]),
                None => found.is_none(),
            },
    {
        match self.slot_of(partner) {
            Some(i) => Some(&self.infos[i]),
            None => None,
        }
    }

    /// What the table keeps of `partner`, to be changed in place.
    pub fn info_mut(&mut self, partner: &Pubkey) -> (found: Option<&mut PartnerInfo>)
        ensures
            final(self).last_observed_fee_amount_token_0 == old(self).last_observed_fee_amount_token_0,
            final(self).last_observed_fee_amount_token_1 == old(self).last_observed_fee_amount_token_1,
            match old(self).spec_slot(*partner) {
                Some(i) => match found {
                    Some(entry) => *entry == old(self).infos@[i] && final(self).infos@ == old(
                        self,
                    ).infos@.update(i, *final(entry)),
                    None => false,
                },
                None => found.is_none() && final(self).infos == old(self).infos,
            },
    {
        match self.slot_of(partner) {
            Some(i) => Some(&mut self.infos[i]),
            None => None,
        }
    }

    /// The liquidity tokens linked with all partners.
    pub fn total_partner_linked_lp_tokens(&self) -> (total: u64)
        requires
            self.wf(),
        ensures
            total == self.spec_total_linked(),
    {
        let mut total: u64 = 0;
        let mut i: usize = 0;
        while i < PARTNER_SIZE
            invariant
                i <= PARTNER_SIZE,
                self.wf(),
                total == linked_total(self.infos@, i as nat),
            decreases PARTNER_SIZE - i,
        {
            proof {
                Self::lemma_linked_total_grows(self.infos@, (i + 1) as nat, PARTNER_SIZE as nat);
            }
            if !self.infos[i].partner.is_default() {
                total = total + self.infos[i].lp_token_linked_with_partner;
            }
            i += 1;
        }
        total
    }

    /// Shares out what the pool has collected for its partners since the
    /// last call.
    ///
    /// `partner_protocol_fees_token_0` and `partner_protocol_fees_token_1`
    /// are the counters of the pool as they stand now. Each partner earns, of
    /// what each counter has gained since it was last observed, the part
    /// that its linked liquidity tokens are of all linked liquidity tokens,
    /// rounded down. Then the counters are noted as observed.
    ///
    /// With no liquidity token linked, nothing changes, the observed
    /// counters included. A counter of the pool that has fallen is
    /// `MathError`, a counter of a partner without room `MathOverflow`; the
    /// table is then left as it was.
    ///
    /// Of what a counter has gained, the partners together earn no more, and
    /// less by no more units than there are partners.
    pub fn update_fee_amounts(&mut self, partner_protocol_fees_token_0: u64, partner_protocol_fees_token_1: u64) -> (r: Result<
        (),
        GammaError,
    >)
        requires
            old(self).wf(),
        ensures
            final(self).wf(),
            match old(self).spec_update_error(partner_protocol_fees_token_0, partner_protocol_fees_token_1) {
                Some(e) => r == Err::<(), GammaError>(e) && *final(self) == *old(self),
                None => r.is_ok() && old(self).spec_shared_out(
                    *final(self),
                    partner_protocol_fees_token_0,
                    partner_protocol_fees_token_1,
                ),
            },
            r.is_ok() && old(self).spec_total_linked() > 0 ==> {
                let gained_0 = partner_protocol_fees_token_0 - old(self).last_observed_fee_amount_token_0;
                let earned_0 = earned_total_token_0(final(self).infos@, PARTNER_SIZE as nat)
                    - earned_total_token_0(old(self).infos@, PARTNER_SIZE as nat);
                let gained_1 = partner_protocol_fees_token_1 - old(self).last_observed_fee_amount_token_1;
                let earned_1 = earned_total_token_1(final(self).infos@, PARTNER_SIZE as nat)
                    - earned_total_token_1(old(self).infos@, PARTNER_SIZE as nat);
                &&& gained_0 - registered_count(old(self).infos@, PARTNER_SIZE as nat) <= earned_0 <= gained_0
                &&& gained_1 - registered_count(old(self).infos@, PARTNER_SIZE as nat) <= earned_1 <= gained_1
            },
    {
        let total = self.total_partner_linked_lp_tokens();
        if total == 0 {
            return Ok(());
        }
        let gained_0 = match partner_protocol_fees_token_0.checked_sub(self.last_observed_fee_amount_token_0) {
            Some(v) => v,
            None => { return Err(GammaError::MathError); },
        };
        let gained_1 = match partner_protocol_fees_token_1.checked_sub(self.last_observed_fee_amount_token_1) {
            Some(v) => v,
            None => { return Err(GammaError::MathError); },
        };
        let mut updated = self.infos;
        let mut i: usize = 0;
        while i < PARTNER_SIZE
            invariant
                i <= PARTNER_SIZE,
                *self == *old(self),
                self.wf(),
                total == self.spec_total_linked(),
                total > 0,
                gained_0 == partner_protocol_fees_token_0 - self.last_observed_fee_amount_token_0,
                gained_1 == partner_protocol_fees_token_1 - self.last_observed_fee_amount_token_1,
                forall|j: int|
                    0 <= j < i ==> !credit_overflows(
                        #[trigger] self.infos@[j],
                        gained_0 as int,
                        gained_1 as int,
                        total as int,
                    ),
                forall|j: int|
                    0 <= j < i ==> #[trigger] updated@[j] == credited(
                        self.infos@[j],
                        gained_0 as int,
                        gained_1 as int,
                        total as int,
                    ),
                forall|j: int| i <= j < PARTNER_SIZE ==> #[trigger] updated@[j] == self.infos@[j],
            decreases PARTNER_SIZE - i,
        {
            let info = self.infos[i];
            if !info.partner.is_default() {
                let linked = info.lp_token_linked_with_partner;
                proof {
                    Self::lemma_linked_within_total(self.infos@, i as int, PARTNER_SIZE as nat);
                    Self::lemma_share_within_fees(gained_0 as int, linked as int, total as int);
                    Self::lemma_share_within_fees(gained_1 as int, linked as int, total as int);
                    assert(gained_0 * linked <= u128::MAX && gained_1 * linked <= u128::MAX) by (nonlinear_arith)
                        requires
                            0 <= gained_0 <= u64::MAX,
                            0 <= gained_1 <= u64::MAX,
                            0 <= linked <= u64::MAX,
                    ;
                }
                let earnings_0 = ((gained_0 as u128 * linked as u128) / (total as u128)) as u64;
                let earnings_1 = ((gained_1 as u128 * linked as u128) / (total as u128)) as u64;
                let earned_0 = match info.total_earned_fee_amount_token_0.checked_add(earnings_0) {
                    Some(v) => v,
                    None => {
                        assert(credit_overflows(self.infos@[i as int], gained_0 as int, gained_1 as int, total as int));
                        return Err(GammaError::MathOverflow);
                    },
                };
                let earned_1 = match info.total_earned_fee_amount_token_1.checked_add(earnings_1) {
                    Some(v) => v,
                    None => {
                        assert(credit_overflows(self.infos@[i as int], gained_0 as int, gained_1 as int, total as int));
                        return Err(GammaError::MathOverflow);
                    },
                };
                updated[i] = PartnerInfo {
                    total_earned_fee_amount_token_0: earned_0,
                    total_earned_fee_amount_token_1: earned_1,
                    ..info
                };
            }
            i += 1;
        }
        proof {
            Self::lemma_credit_keeps_links(
                self.infos@,
                updated@,
                gained_0 as int,
                gained_1 as int,
                total as int,
                PARTNER_SIZE as nat,
            );
            Self::lemma_shares_add_up(
                self.infos@,
                updated@,
                gained_0 as int,
                gained_1 as int,
                total as int,
                PARTNER_SIZE as nat,
            );
        }
        self.infos = updated;
        assert(self.infos@ =~= old(self).spec_credited_infos(
            partner_protocol_fees_token_0,
            partner_protocol_fees_token_1,
        ));
        self.last_observed_fee_amount_token_0 = partner_protocol_fees_token_0;
        self.last_observed_fee_amount_token_1 = partner_protocol_fees_token_1;
        Ok(())
    }

    /// Sharing out fees moves no partner: every address is in the slot it
    /// was in.
    pub proof fn lemma_sharing_keeps_slots(
        before: PoolPartnerInfos,
        after: PoolPartnerInfos,
        fees_0: u64,
        fees_1: u64,
        partner: Pubkey,
        n: nat,
    )
        requires
            n <= PARTNER_SIZE,
            before.spec_shared_out(after, fees_0, fees_1),
        ensures
            partner_slot(after.infos@, partner, n) == partner_slot(before.infos@, partner, n),
        decreases n,
    {
        if n > 0 {
            Self::lemma_sharing_keeps_slots(before, after, fees_0, fees_1, partner, (n - 1) as nat);
        }
    }

    /// Free slots link no liquidity token.
    proof fn lemma_linked_total_of_free_slots(infos: Seq<PartnerInfo>, n: nat)
        requires
            n <= infos.len(),
            forall|i: int| 0 <= i < n ==> !is_registered(#[trigger] infos[i]),
        ensures
            linked_total(infos, n) == 0,
        decreases n,
    {
        if n > 0 {
            Self::lemma_linked_total_of_free_slots(infos, (n - 1) as nat);
        }
    }

    /// A slot that holds nothing after it was written links nothing, so the
    /// total cannot have grown.
    proof fn lemma_linked_total_after_reset(before: Seq<PartnerInfo>, after: Seq<PartnerInfo>, slot: int, n: nat)
        requires
            n <= before.len(),
            before.len() == after.len(),
            0 <= slot < before.len(),
            after == before.update(slot, after[slot]),
            after[slot].lp_token_linked_with_partner == 0,
        ensures
            linked_total(after, n) <= linked_total(before, n),
        decreases n,
    {
        if n > 0 {
            Self::lemma_linked_total_after_reset(before, after, slot, (n - 1) as nat);
        }
    }

    /// The total of a shorter run of slots is not above that of a longer.
    proof fn lemma_linked_total_grows(infos: Seq<PartnerInfo>, n: nat, m: nat)
        requires
            n <= m,
        ensures
            0 <= linked_total(infos, n) <= linked_total(infos, m),
        decreases m,
    {
        if n < m {
            Self::lemma_linked_total_grows(infos, n, (m - 1) as nat);
        } else if n > 0 {
            Self::lemma_linked_total_grows(infos, (n - 1) as nat, (n - 1) as nat);
        }
    }

    /// What one partner links is part of the total.
    proof fn lemma_linked_within_total(infos: Seq<PartnerInfo>, slot: int, n: nat)
        requires
            0 <= slot < n,
            is_registered(infos[slot]),
        ensures
            infos[slot].lp_token_linked_with_partner <= linked_total(infos, n),
        decreases n,
    {
        if slot == n - 1 {
            Self::lemma_linked_total_grows(infos, (n - 1) as nat, (n - 1) as nat);
        } else {
            Self::lemma_linked_within_total(infos, slot, (n - 1) as nat);
        }
    }

    /// A share is not negative and not more than what is shared.
    proof fn lemma_share_within_fees(fees: int, linked: int, total: int)
        requires
            0 <= fees,
            0 <= linked <= total,
            0 < total,
        ensures
            0 <= fee_share(fees, linked, total) <= fees,
    {
        assert(0 <= (fees * linked) / total <= fees) by (nonlinear_arith)
            requires
                0 <= fees,
                0 <= linked <= total,
                0 < total,
        ;
    }

    /// A slot found at `slot`, with none before it, is the slot of the key.
    proof fn lemma_slot_found(infos: Seq<PartnerInfo>, partner: Pubkey, slot: int, n: nat)
        requires
            0 <= slot < n,
            partner_slot(infos, partner, slot as nat).is_none(),
            infos[slot].partner == partner,
        ensures
            partner_slot(infos, partner, n) == Some(slot),
        decreases n,
    {
        if slot < n - 1 {
            Self::lemma_slot_found(infos, partner, slot, (n - 1) as nat);
        }
    }

    /// Sharing out fees changes no address and no link.
    proof fn lemma_credit_keeps_links(
        before: Seq<PartnerInfo>,
        after: Seq<PartnerInfo>,
        fees_0: int,
        fees_1: int,
        total: int,
        n: nat,
    )
        requires
            n <= before.len(),
            before.len() == after.len(),
            forall|j: int| 0 <= j < n ==> #[trigger] after[j] == credited(before[j], fees_0, fees_1, total),
        ensures
            linked_total(after, n) == linked_total(before, n),
        decreases n,
    {
        if n > 0 {
            Self::lemma_credit_keeps_links(before, after, fees_0, fees_1, total, (n - 1) as nat);
        }
    }

    /// What the partners earn together, times the total of the links, lies
    /// between the fees times the links counted so far, less the total for
    /// each partner counted, and the fees times the links counted so far.
    proof fn lemma_shares_bounded(
        before: Seq<PartnerInfo>,
        after: Seq<PartnerInfo>,
        fees_0: int,
        fees_1: int,
        total: int,
        n: nat,
    )
        requires
            n <= before.len(),
            before.len() == after.len(),
            total > 0,
            fees_0 >= 0,
            fees_1 >= 0,
            forall|j: int| 0 <= j < n ==> #[trigger] after[j] == credited(before[j], fees_0, fees_1, total),
            forall|j: int| 0 <= j < n ==> !credit_overflows(#[trigger] before[j], fees_0, fees_1, total),
        ensures
            ({
                let earned_0 = earned_total_token_0(after, n) - earned_total_token_0(before, n);
                let earned_1 = earned_total_token_1(after, n) - earned_total_token_1(before, n);
                let linked = linked_total(before, n);
                let count = registered_count(before, n);
                &&& count >= 0
                &&& earned_0 * total <= fees_0 * linked
                &&& earned_0 * total >= fees_0 * linked - count * (total - 1)
                &&& earned_1 * total <= fees_1 * linked
                &&& earned_1 * total >= fees_1 * linked - count * (total - 1)
            }),
        decreases n,
    {
        if n == 0 {
            assert(0 * total == 0 && fees_0 * 0 == 0 && fees_1 * 0 == 0 && 0 * (total - 1) == 0)
                by (nonlinear_arith);
        } else {
            let m = (n - 1) as nat;
            Self::lemma_shares_bounded(before, after, fees_0, fees_1, total, m);
            let info = before[n - 1];
            assert(after[n - 1] == credited(info, fees_0, fees_1, total));
            assert(!credit_overflows(info, fees_0, fees_1, total));
            let e0 = earned_total_token_0(after, m) - earned_total_token_0(before, m);
            let e1 = earned_total_token_1(after, m) - earned_total_token_1(before, m);
            let lk = linked_total(before, m);
            let c = registered_count(before, m);
            if is_registered(info) {
                let l = info.lp_token_linked_with_partner as int;
                let s0 = fee_share(fees_0, l, total);
                let s1 = fee_share(fees_1, l, total);
                assert(s0 * total <= fees_0 * l && s0 * total >= fees_0 * l - (total - 1) && s0 >= 0)
                    by (nonlinear_arith)
                    requires
                        s0 == (fees_0 * l) / total,
                        total > 0,
                        fees_0 >= 0,
                        l >= 0,
                ;
                assert(s1 * total <= fees_1 * l && s1 * total >= fees_1 * l - (total - 1) && s1 >= 0)
                    by (nonlinear_arith)
                    requires
                        s1 == (fees_1 * l) / total,
                        total > 0,
                        fees_1 >= 0,
                        l >= 0,
                ;
                assert(is_registered(after[n - 1]));
                assert(after[n - 1].total_earned_fee_amount_token_0 == info.total_earned_fee_amount_token_0 + s0);
                assert(after[n - 1].total_earned_fee_amount_token_1 == info.total_earned_fee_amount_token_1 + s1);
                assert(earned_total_token_0(after, n) - earned_total_token_0(before, n) == e0 + s0);
                assert(earned_total_token_1(after, n) - earned_total_token_1(before, n) == e1 + s1);
                assert(linked_total(before, n) == lk + l);
                assert(registered_count(before, n) == c + 1);
                assert((e0 + s0) * total == e0 * total + s0 * total) by (nonlinear_arith);
                assert((e1 + s1) * total == e1 * total + s1 * total) by (nonlinear_arith);
                assert(fees_0 * (lk + l) == fees_0 * lk + fees_0 * l) by (nonlinear_arith);
                assert(fees_1 * (lk + l) == fees_1 * lk + fees_1 * l) by (nonlinear_arith);
                assert((c + 1) * (total - 1) == c * (total - 1) + (total - 1)) by (nonlinear_arith);
                let n0 = earned_total_token_0(after, n) - earned_total_token_0(before, n);
                let n1 = earned_total_token_1(after, n) - earned_total_token_1(before, n);
                let nl = linked_total(before, n);
                let nc = registered_count(before, n);
                assert(n0 * total == (e0 + s0) * total);
                assert(n1 * total == (e1 + s1) * total);
                assert(fees_0 * nl == fees_0 * (lk + l));
                assert(fees_1 * nl == fees_1 * (lk + l));
                assert(nc * (total - 1) == (c + 1) * (total - 1));
            } else {
                assert(after[n - 1] == info);
                assert(earned_total_token_0(after, n) - earned_total_token_0(before, n) == e0);
                assert(earned_total_token_1(after, n) - earned_total_token_1(before, n) == e1);
                assert(linked_total(before, n) == lk);
                assert(registered_count(before, n) == c);
            }
        }
    }

    /// Bounds on `earned * total` give bounds on `earned`.
    proof fn lemma_bounds_divided(earned: int, fees: int, count: int, total: int)
        requires
            earned * total <= fees * total,
            earned * total >= fees * total - count * (total - 1),
            total > 0,
            count >= 0,
        ensures
            fees - count <= earned <= fees,
    {
        assert(earned <= fees) by (nonlinear_arith)
            requires
                earned * total <= fees * total,
                total > 0,
        ;
        assert((earned - fees + count) * total >= 0) by (nonlinear_arith)
            requires
                earned * total >= fees * total - count * (total - 1),
                total > 0,
                count >= 0,
        ;
        assert(earned - fees + count >= 0) by (nonlinear_arith)
            requires
                (earned - fees + count) * total >= 0,
                total > 0,
        ;
    }

    /// Of the fees shared out, the partners together earn no more, and less
    /// by no more units than there are partners.
    pub proof fn lemma_shares_add_up(
        before: Seq<PartnerInfo>,
        after: Seq<PartnerInfo>,
        fees_0: int,
        fees_1: int,
        total: int,
        n: nat,
    )
        requires
            n <= before.len(),
            before.len() == after.len(),
            total > 0,
            total == linked_total(before, n),
            fees_0 >= 0,
            fees_1 >= 0,
            forall|j: int| 0 <= j < n ==> #[trigger] after[j] == credited(before[j], fees_0, fees_1, total),
            forall|j: int| 0 <= j < n ==> !credit_overflows(#[trigger] before[j], fees_0, fees_1, total),
        ensures
            fees_0 - registered_count(before, n) <= earned_total_token_0(after, n) - earned_total_token_0(
                before,
                n,
            ) <= fees_0,
            fees_1 - registered_count(before, n) <= earned_total_token_1(after, n) - earned_total_token_1(
                before,
                n,
            ) <= fees_1,
    {
        Self::lemma_shares_bounded(before, after, fees_0, fees_1, total, n);
        let earned_0 = earned_total_token_0(after, n) - earned_total_token_0(before, n);
        let earned_1 = earned_total_token_1(after, n) - earned_total_token_1(before, n);
        let count = registered_count(before, n);
        Self::lemma_bounds_divided(earned_0, fees_0, count, total);
        Self::lemma_bounds_divided(earned_1, fees_1, count, total);
    }
}

} // verus!
