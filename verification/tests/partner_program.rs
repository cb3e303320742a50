use gamma::error::GammaError;
use gamma::instructions::init_user_pool_liquidity::init_user_pool_liquidity;
use gamma::instructions::partner::{
    add_partner, claim_partner_fees, initialize_partner, initialize_pool_partners, update_partner,
    update_partner_fees,
};
use gamma::states::partner::{PartnerInfo, PoolPartnerInfos, PARTNER_SIZE};
use gamma::states::pool::PoolState;
use gamma::states::user_pool_liquidity::UserPoolLiquidity;
use gamma::utils::pubkey::Pubkey;

fn key(n: u8) -> Pubkey {
    Pubkey::new_from_array([n; 32])
}

fn table(linked: &[(u8, u64)]) -> PoolPartnerInfos {
    let mut partners = PoolPartnerInfos::new();
    for (n, lp) in linked {
        partners.add_new(key(*n)).unwrap();
        partners.info_mut(&key(*n)).unwrap().lp_token_linked_with_partner = *lp;
    }
    partners
}

#[test]
fn a_sixth_partner_is_refused() {
    let mut partners = PoolPartnerInfos::new();
    assert_eq!(PARTNER_SIZE, 5);
    for n in 1..=5 {
        assert!(!partners.has(&key(n)));
        assert_eq!(partners.add_new(key(n)), Ok(()));
        assert!(partners.has(&key(n)));
    }
    assert_eq!(partners.add_new(key(6)), Err(GammaError::ExceededMaxPartnersForPool));
    assert!(!partners.has(&key(6)));
    assert_eq!(partners.slot_of(&key(3)), Some(2));
    assert_eq!(partners.info(&key(3)).unwrap().partner, key(3));
    assert!(partners.info(&key(6)).is_none());
    assert!(partners.info_mut(&key(6)).is_none());
    assert_eq!(partners.initialize(), Ok(()));
    assert!(!partners.has(&key(3)));
}

#[test]
fn linked_liquidity_is_counted_over_the_partners() {
    let partners = table(&[(1, 100), (2, 200)]);
    assert_eq!(partners.total_partner_linked_lp_tokens(), 300);
    // what a free slot holds does not count
    let mut partners = partners;
    partners.infos[4].lp_token_linked_with_partner = 1_000;
    assert_eq!(partners.total_partner_linked_lp_tokens(), 300);
    assert_eq!(PoolPartnerInfos::new().total_partner_linked_lp_tokens(), 0);
}

#[test]
fn fees_are_shared_by_linked_liquidity() {
    let mut partners = table(&[(1, 100), (2, 200)]);
    assert_eq!(partners.update_fee_amounts(1_000, 50), Ok(()));
    let first = *partners.info(&key(1)).unwrap();
    let second = *partners.info(&key(2)).unwrap();
    // 1000 * 100 / 300 and 1000 * 200 / 300, rounded down
    assert_eq!(first.total_earned_fee_amount_token_0, 333);
    assert_eq!(second.total_earned_fee_amount_token_0, 666);
    // 50 * 100 / 300 and 50 * 200 / 300
    assert_eq!(first.total_earned_fee_amount_token_1, 16);
    assert_eq!(second.total_earned_fee_amount_token_1, 33);
    assert_eq!(partners.last_observed_fee_amount_token_0, 1_000);
    assert_eq!(partners.last_observed_fee_amount_token_1, 50);

    // only what the counters gained since is shared
    assert_eq!(partners.update_fee_amounts(1_300, 50), Ok(()));
    assert_eq!(partners.info(&key(1)).unwrap().total_earned_fee_amount_token_0, 333 + 100);
    assert_eq!(partners.info(&key(2)).unwrap().total_earned_fee_amount_token_0, 666 + 200);
    assert_eq!(partners.info(&key(1)).unwrap().total_earned_fee_amount_token_1, 16);
}

#[test]
fn shares_add_up_to_the_fees_but_for_the_rounding() {
    let cases: [(&[(u8, u64)], u64); 5] = [
        (&[(1, 100), (2, 200)], 1_000),
        (&[(1, 1), (2, 1), (3, 1)], 2),
        (&[(1, 7), (2, 11), (3, 13), (4, 17), (5, 19)], 1_000_003),
        (&[(1, u64::MAX / 2), (2, u64::MAX / 2)], u64::MAX),
        (&[(1, 5), (2, 0)], 999),
    ];
    for (linked, fees) in cases {
        let mut partners = table(linked);
        partners.update_fee_amounts(fees, 0).unwrap();
        let earned: u128 = partners
            .infos
            .iter()
            .map(|i| i.total_earned_fee_amount_token_0 as u128)
            .sum();
        assert!(earned <= fees as u128);
        assert!(fees as u128 - earned <= linked.len() as u128);
    }
}

#[test]
fn without_linked_liquidity_nothing_is_shared() {
    let mut partners = table(&[(1, 0), (2, 0)]);
    assert_eq!(partners.update_fee_amounts(1_000, 50), Ok(()));
    assert_eq!(partners.last_observed_fee_amount_token_0, 0);
    assert_eq!(partners.last_observed_fee_amount_token_1, 0);
    assert_eq!(partners.info(&key(1)).unwrap().total_earned_fee_amount_token_0, 0);
}

#[test]
fn a_failed_sharing_changes_nothing() {
    let mut partners = table(&[(1, 100), (2, 200)]);
    partners.update_fee_amounts(1_000, 50).unwrap();
    // a counter of the pool that has fallen
    assert_eq!(partners.update_fee_amounts(999, 50), Err(GammaError::MathError));
    assert_eq!(partners.update_fee_amounts(1_000, 49), Err(GammaError::MathError));
    // a counter of a partner without room
    partners.info_mut(&key(2)).unwrap().total_earned_fee_amount_token_0 = u64::MAX;
    assert_eq!(partners.update_fee_amounts(2_000, 50), Err(GammaError::MathOverflow));
    assert_eq!(partners.last_observed_fee_amount_token_0, 1_000);
    assert_eq!(partners.info(&key(1)).unwrap().total_earned_fee_amount_token_0, 333);
    assert_eq!(partners.info(&key(2)).unwrap().total_earned_fee_amount_token_0, u64::MAX);
}

#[test]
fn a_partner_claims_what_it_has_earned() {
    let mut partners = table(&[(1, 100), (2, 200)]);
    partners.update_fee_amounts(1_000, 50).unwrap();
    assert_eq!(claim_partner_fees(&mut partners, &key(1)), Ok((333, 16)));
    assert_eq!(partners.info(&key(1)).unwrap().total_claimed_fee_amount_token_0, 333);
    assert_eq!(partners.info(&key(1)).unwrap().total_claimed_fee_amount_token_1, 16);
    assert_eq!(claim_partner_fees(&mut partners, &key(1)), Ok((0, 0)));
    assert_eq!(claim_partner_fees(&mut partners, &key(9)), Err(GammaError::InvalidPartner));
    partners.info_mut(&key(2)).unwrap().total_claimed_fee_amount_token_1 = 34;
    assert_eq!(claim_partner_fees(&mut partners, &key(2)), Err(GammaError::MathOverflow));
    assert_eq!(partners.info(&key(2)).unwrap().total_claimed_fee_amount_token_0, 0);
}

#[test]
fn a_new_partner_shares_only_in_later_fees() {
    let mut partners = table(&[(1, 100)]);
    assert_eq!(
        add_partner(&mut partners, key(1), 600, 0),
        Err(GammaError::PartnerAlreadyExistsForPool)
    );
    assert_eq!(partners.last_observed_fee_amount_token_0, 0);
    // the first partner gets all of what was collected so far
    assert_eq!(add_partner(&mut partners, key(2), 600, 0), Ok(()));
    assert_eq!(partners.info(&key(1)).unwrap().total_earned_fee_amount_token_0, 600);
    assert_eq!(partners.info(&key(2)).unwrap().total_earned_fee_amount_token_0, 0);
    assert_eq!(partners.last_observed_fee_amount_token_0, 600);
    partners.info_mut(&key(2)).unwrap().lp_token_linked_with_partner = 300;
    let mut pool_state = PoolState::default();
    pool_state.partner_protocol_fees_token_0 = 1_000;
    assert_eq!(update_partner_fees(&pool_state, &mut partners), Ok(()));
    assert_eq!(partners.info(&key(1)).unwrap().total_earned_fee_amount_token_0, 600 + 100);
    assert_eq!(partners.info(&key(2)).unwrap().total_earned_fee_amount_token_0, 300);
}

#[test]
fn a_full_table_is_left_as_it_was() {
    let mut partners = table(&[(1, 100), (2, 0), (3, 0), (4, 0), (5, 0)]);
    assert_eq!(
        add_partner(&mut partners, key(6), 600, 0),
        Err(GammaError::ExceededMaxPartnersForPool)
    );
    assert_eq!(partners.last_observed_fee_amount_token_0, 0);
    assert_eq!(partners.info(&key(1)).unwrap().total_earned_fee_amount_token_0, 0);
}

#[test]
fn should_track_cumulative_rates_correctly() {
    let partner_1_authority = key(11);
    let pool_id = key(20);
    let partner_1_token_0_account = key(31);
    let partner_1_token_1_account = key(32);

    let mut partner1 = initialize_partner(
        String::from("partner-1"),
        partner_1_authority,
        pool_id,
        Pubkey::default(),
        partner_1_token_1_account,
    );
    assert_eq!(partner1.authority, partner_1_authority);
    assert_eq!(partner1.name, "partner-1");
    assert_eq!(partner1.pool_state, pool_id);
    assert_eq!(partner1.token_0_token_account, Pubkey::default());
    assert_eq!(partner1.token_1_token_account, partner_1_token_1_account);

    update_partner(&mut partner1, Some(partner_1_token_0_account), None).unwrap();
    assert_eq!(partner1.token_0_token_account, partner_1_token_0_account);
    assert_eq!(partner1.token_1_token_account, partner_1_token_1_account);

    let mut pool_partners = PoolPartnerInfos::new();
    initialize_pool_partners(&mut pool_partners).unwrap();
    let partner1_key = key(1);
    let partner2_key = key(2);
    add_partner(&mut pool_partners, partner1_key, 0, 0).unwrap();
    add_partner(&mut pool_partners, partner2_key, 0, 0).unwrap();

    let mut depositor1 = UserPoolLiquidity::new(Pubkey::default(), Pubkey::default(), None, 0);
    init_user_pool_liquidity(&mut depositor1, &pool_partners, key(41), pool_id, Some(partner1_key), 100)
        .unwrap();
    assert_eq!(depositor1.partner, Some(partner1_key));
    assert_eq!(depositor1.first_investment_at, 100);
    let mut stranger = UserPoolLiquidity::new(Pubkey::default(), Pubkey::default(), None, 0);
    assert_eq!(
        init_user_pool_liquidity(&mut stranger, &pool_partners, key(43), pool_id, Some(key(99)), 100),
        Err(GammaError::InvalidPartner)
    );
    assert_eq!(stranger.user, Pubkey::default());

    // the first depositor comes through the first partner
    pool_partners
        .info_mut(&partner1_key)
        .unwrap()
        .lp_token_linked_with_partner = 200000000;

    // the first swaps: the first partner gets all of their fees
    let swap_seq_1_fee_increase_token_0 = 2;
    let swap_seq_1_fee_increase_token_1 = 200;
    pool_partners
        .update_fee_amounts(swap_seq_1_fee_increase_token_0, swap_seq_1_fee_increase_token_1)
        .unwrap();
    // the second depositor comes through the second partner, after the update
    pool_partners
        .info_mut(&partner2_key)
        .unwrap()
        .lp_token_linked_with_partner = 100000000;

    let partner1_info: PartnerInfo = *pool_partners.info(&partner1_key).unwrap();
    let partner2_info: PartnerInfo = *pool_partners.info(&partner2_key).unwrap();
    assert_eq!(partner1_info.total_earned_fee_amount_token_0, swap_seq_1_fee_increase_token_0);
    assert_eq!(partner1_info.total_earned_fee_amount_token_1, swap_seq_1_fee_increase_token_1);
    assert_eq!(partner2_info.total_earned_fee_amount_token_0, 0);
    assert_eq!(partner2_info.total_earned_fee_amount_token_1, 0);
    assert_eq!(pool_partners.last_observed_fee_amount_token_0, 2);
    assert_eq!(pool_partners.last_observed_fee_amount_token_1, 200);

    // the second swaps are shared by both
    let swap_seq_2_fee_increase_token_0 = 4u64;
    let swap_seq_2_fee_increase_token_1 = 400u64;
    pool_partners.update_fee_amounts(2 + 4, 200 + 400).unwrap();
    let total_partner_lp = pool_partners.total_partner_linked_lp_tokens();
    assert_eq!(total_partner_lp, 300000000);
    let partner1_after: PartnerInfo = *pool_partners.info(&partner1_key).unwrap();
    let partner2_after: PartnerInfo = *pool_partners.info(&partner2_key).unwrap();
    assert_eq!(
        partner1_after.total_earned_fee_amount_token_0 - partner1_info.total_earned_fee_amount_token_0,
        ((partner1_after.lp_token_linked_with_partner as u128 * swap_seq_2_fee_increase_token_0 as u128)
            / total_partner_lp as u128) as u64
    );
    assert_eq!(
        partner1_after.total_earned_fee_amount_token_1 - partner1_info.total_earned_fee_amount_token_1,
        ((partner1_after.lp_token_linked_with_partner as u128 * swap_seq_2_fee_increase_token_1 as u128)
            / total_partner_lp as u128) as u64
    );
    assert_eq!(
        partner2_after.total_earned_fee_amount_token_0 - partner2_info.total_earned_fee_amount_token_0,
        ((partner2_after.lp_token_linked_with_partner as u128 * swap_seq_2_fee_increase_token_0 as u128)
            / total_partner_lp as u128) as u64
    );
    assert_eq!(
        partner2_after.total_earned_fee_amount_token_1 - partner2_info.total_earned_fee_amount_token_1,
        ((partner2_after.lp_token_linked_with_partner as u128 * swap_seq_2_fee_increase_token_1 as u128)
            / total_partner_lp as u128) as u64
    );
    assert_eq!(pool_partners.last_observed_fee_amount_token_0, 6);
    assert_eq!(pool_partners.last_observed_fee_amount_token_1, 600);
}
