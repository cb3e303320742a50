use crate::error::GammaError;
use crate::states::partner::{Partner, PartnerInfo, PoolPartnerInfos};
use crate::states::pool::PoolState;
use crate::utils::pubkey::Pubkey;
use vstd::prelude::*;

verus! {

/// What a partner can claim of its earnings: nothing where a total claimed
/// is above the total earned.
pub open spec fn claimable(info: PartnerInfo) -> Option<(u64, u64)> {
    if info.total_earned_fee_amount_token_0 < info.total_claimed_fee_amount_token_0
        || info.total_earned_fee_amount_token_1 < info.total_claimed_fee_amount_token_1 {
        None
    } else {
        Some(
            (
                (info.total_earned_fee_amount_token_0 - info.total_claimed_fee_amount_token_0) as u64,
                (info.total_earned_fee_amount_token_1 - info.total_claimed_fee_amount_token_1) as u64,
            ),
        )
    }
}

/// The slot of a partner that has claimed all it has earned.
pub open spec fn settled(info: PartnerInfo) -> PartnerInfo {
    PartnerInfo {
        total_claimed_fee_amount_token_0: info.total_earned_fee_amount_token_0,
        total_claimed_fee_amount_token_1: info.total_earned_fee_amount_token_1,
        ..info
    }
}

/// Makes a new partner of a pool.
pub fn initialize_partner(
    name: String,
    authority: Pubkey,
    pool_state: Pubkey,
    token_0_token_account: Pubkey,
    token_1_token_account: Pubkey,
) -> (partner: Partner)
    ensures
        partner.name == name,
        partner.authority == authority,
        partner.pool_state == pool_state,
        partner.token_0_token_account == token_0_token_account,
        partner.token_1_token_account == token_1_token_account,
{
    Partner { name, authority, pool_state, token_0_token_account, token_1_token_account }
}

/// Empties the partner table of a pool.
pub fn initialize_pool_partners(pool_partners: &mut PoolPartnerInfos) -> (r: Result<(), GammaError>)
    ensures
        r.is_ok(),
        final(pool_partners).wf(),
        final(pool_partners).last_observed_fee_amount_token_0 == old(pool_partners).last_observed_fee_amount_token_0,
        final(pool_partners).last_observed_fee_amount_token_1 == old(pool_partners).last_observed_fee_amount_token_1,
        forall|i: int| 0 <= i < 5 ==> final(pool_partners).infos@[i] == PartnerInfo::spec_default(),
{
    pool_partners.initialize()
}

/// Changes where a partner receives its fees: each address given replaces
/// the one that the partner has.
pub fn update_partner(partner: &mut Partner, token_account_0: Option<Pubkey>, token_account_1: Option<Pubkey>) -> (r: Result<
    (),
    GammaError,
>)
    ensures
        r.is_ok(),
        final(partner).name == old(partner).name,
        final(partner).authority == old(partner).authority,
        final(partner).pool_state == old(partner).pool_state,
        final(partner).token_0_token_account == match token_account_0 {
            Some(account) => account,
            None => old(partner).token_0_token_account,
        },
        final(partner).token_1_token_account == match token_account_1 {
            Some(account) => account,
            None => old(partner).token_1_token_account,
        },
{
    if let Some(account) = token_account_0 {
        partner.token_0_token_account = account;
    }
    if let Some(account) = token_account_1 {
        partner.token_1_token_account = account;
    }
    Ok(())
}

/// Shares out among the partners what the pool has collected for them: see
/// [`PoolPartnerInfos::update_fee_amounts`].
pub fn update_partner_fees(pool_state: &PoolState, pool_partners: &mut PoolPartnerInfos) -> (r: Result<
    (),
    GammaError,
>)
    requires
        old(pool_partners).wf(),
    ensures
        final(pool_partners).wf(),
        match old(pool_partners).spec_update_error(
            pool_state.partner_protocol_fees_token_0,
            pool_state.partner_protocol_fees_token_1,
        ) {
            Some(e) => r == Err::<(), GammaError>(e) && *final(pool_partners) == *old(pool_partners),
            None => r.is_ok() && old(pool_partners).spec_shared_out(
                *final(pool_partners),
                pool_state.partner_protocol_fees_token_0,
                pool_state.partner_protocol_fees_token_1,
            ),
        },
{
    pool_partners.update_fee_amounts(
        pool_state.partner_protocol_fees_token_0,
        pool_state.partner_protocol_fees_token_1,
    )
}

/// Takes a partner into the table of a pool.
///
/// A partner that the table has already is `PartnerAlreadyExistsForPool`.
/// The earnings of the partners so far are brought up to date first, so
/// that the new partner shares only in what the pool collects from now on.
/// A table without a free slot is `ExceededMaxPartnersForPool`. On an error
/// the table is left as it was.
pub fn add_partner(
    pool_partners: &mut PoolPartnerInfos,
    partner: Pubkey,
    partner_protocol_fees_token_0: u64,
    partner_protocol_fees_token_1: u64,
) -> (r: Result<(), GammaError>)
    requires
        old(pool_partners).wf(),
    ensures
        final(pool_partners).wf(),
        if old(pool_partners).spec_slot(partner).is_some() {
            r == Err::<(), GammaError>(GammaError::PartnerAlreadyExistsForPool) && *final(pool_partners)
                == *old(pool_partners)
        } else {
            match old(pool_partners).spec_update_error(
                partner_protocol_fees_token_0,
                partner_protocol_fees_token_1,
            ) {
                Some(e) => r == Err::<(), GammaError>(e) && *final(pool_partners) == *old(pool_partners),
                None => match old(pool_partners).spec_free_slot() {
                    None => r == Err::<(), GammaError>(GammaError::ExceededMaxPartnersForPool) && *final(pool_partners) == *old(pool_partners),
                    Some(i) => {
                        &&& r.is_ok()
                        &&& final(pool_partners).infos@ == old(pool_partners).spec_infos_after_sharing(
                            partner_protocol_fees_token_0,
                            partner_protocol_fees_token_1,
                        ).update(i, PartnerInfo::spec_fresh(partner))
                        &&& if old(pool_partners).spec_total_linked() == 0 {
                            &&& final(pool_partners).last_observed_fee_amount_token_0 == old(pool_partners).last_observed_fee_amount_token_0
                            &&& final(pool_partners).last_observed_fee_amount_token_1 == old(pool_partners).last_observed_fee_amount_token_1
                        } else {
                            &&& final(pool_partners).last_observed_fee_amount_token_0
                                == partner_protocol_fees_token_0
                            &&& final(pool_partners).last_observed_fee_amount_token_1
                                == partner_protocol_fees_token_1
                        }
                    },
                },
            }
        },
{
    if pool_partners.has(&partner) {
        return Err(GammaError::PartnerAlreadyExistsForPool);
    }
    let before = *pool_partners;
    match pool_partners.update_fee_amounts(partner_protocol_fees_token_0, partner_protocol_fees_token_1) {
        Ok(()) => {},
        Err(e) => { return Err(e); },
    }
    proof {
        PoolPartnerInfos::lemma_sharing_keeps_slots(
            before,
            *pool_partners,
            partner_protocol_fees_token_0,
            partner_protocol_fees_token_1,
            Pubkey::spec_default(),
            5,
        );
    }
    match pool_partners.add_new(partner) {
        Ok(()) => Ok(()),
        Err(e) => {
            *pool_partners = before;
            Err(e)
        },
    }
}

/// Pays a partner what it has earned and not yet claimed of each token, and
/// notes it as claimed.
///
/// A partner that the table does not have is `InvalidPartner`. A total
/// claimed above the total earned is `MathOverflow`. On an error the table
/// is left as it was.
pub fn claim_partner_fees(pool_partners: &mut PoolPartnerInfos, partner: &Pubkey) -> (r: Result<
    (u64, u64),
    GammaError,
>)
    ensures
        final(pool_partners).last_observed_fee_amount_token_0 == old(pool_partners).last_observed_fee_amount_token_0,
        final(pool_partners).last_observed_fee_amount_token_1 == old(pool_partners).last_observed_fee_amount_token_1,
        match old(pool_partners).spec_slot(*partner) {
            None => r == Err::<(u64, u64), GammaError>(GammaError::InvalidPartner) && final(pool_partners).infos == old(pool_partners).infos,
            Some(i) => match claimable(old(pool_partners).infos@[i]) {
                None => r == Err::<(u64, u64), GammaError>(GammaError::MathOverflow) && final(pool_partners).infos == old(pool_partners).infos,
                Some(amounts) => r == Ok::<(u64, u64), GammaError>(amounts) && final(pool_partners).infos@
                    == old(pool_partners).infos@.update(i, settled(old(pool_partners).infos@[i])),
            },
        },
{
    let slot = match pool_partners.slot_of(partner) {
        Some(i) => i,
        None => { return Err(GammaError::InvalidPartner); },
    };
    let mut info = pool_partners.infos[slot];
    let amount_0 = match info.total_earned_fee_amount_token_0.checked_sub(
        info.total_claimed_fee_amount_token_0,
    ) {
        Some(v) => v,
        None => { return Err(GammaError::MathOverflow); },
    };
    let amount_1 = match info.total_earned_fee_amount_token_1.checked_sub(
        info.total_claimed_fee_amount_token_1,
    ) {
        Some(v) => v,
        None => { return Err(GammaError::MathOverflow); },
    };
    info.total_claimed_fee_amount_token_0 = info.total_earned_fee_amount_token_0;
    info.total_claimed_fee_amount_token_1 = info.total_earned_fee_amount_token_1;
    pool_partners.infos[slot] = info;
    Ok((amount_0, amount_1))
}

} // verus!
