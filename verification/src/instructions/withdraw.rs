use crate::curve::calculator::CurveCalculator;
use crate::curve::constant_product::lp_tokens_to_trading_tokens_spec;
use crate::curve::RoundDirection;
use crate::error::GammaError;
use crate::states::partner::{linked_total, PartnerInfo, PoolPartnerInfos, PARTNER_SIZE};
use crate::states::pool::{PoolState, PoolStatusBitIndex};
use crate::states::user_pool_liquidity::UserPoolLiquidity;
use vstd::prelude::*;

verus! {

/// The number of accounts that one withdrawal from the lending market
/// reads.
pub const KAMINO_ACCOUNTS: usize = 6;

/// What a number of liquidity tokens is worth in the two tokens of a pool.
#[derive(Clone, Copy, Debug, PartialEq, Eq, Structural)]
pub struct WithdrawAmounts {
    /// The balance of token 0 that the pool trades on.
    pub total_token_0_amount: u64,
    /// The balance of token 1 that the pool trades on.
    pub total_token_1_amount: u64,
    /// What leaves the pool of token 0.
    pub token_0_amount: u64,
    /// What leaves the pool of token 1.
    pub token_1_amount: u64,
}

/// What the holder receives of a withdrawal.
#[derive(Clone, Copy, Debug, PartialEq, Eq, Structural)]
pub struct WithdrawReceipt {
    pub receive_token_0_amount: u64,
    pub token_0_transfer_fee: u64,
    pub receive_token_1_amount: u64,
    pub token_1_transfer_fee: u64,
}

/// The smaller of two amounts.
pub open spec fn smaller(a: int, b: int) -> int {
    if a <= b {
        a
    } else {
        b
    }
}

/// What [`withdraw_amounts`] gives.
pub open spec fn withdraw_amounts_spec(pool_state: PoolState, lp_token_amount: u64) -> Result<
    WithdrawAmounts,
    GammaError,
> {
    if !pool_state.spec_status_by_bit(PoolStatusBitIndex::Withdraw) {
        Err(GammaError::NotApproved)
    } else {
        match lp_tokens_to_trading_tokens_spec(
            lp_token_amount as u128,
            pool_state.lp_supply as u128,
            pool_state.token_0_vault_amount as u128,
            pool_state.token_1_vault_amount as u128,
            RoundDirection::Floor,
        ) {
            None => Err(GammaError::ZeroTradingTokens),
            Some(amounts) => if amounts.token_0_amount > u64::MAX || amounts.token_1_amount > u64::MAX {
                Err(GammaError::MathOverflow)
            } else {
                Ok(
                    WithdrawAmounts {
                        total_token_0_amount: pool_state.token_0_vault_amount,
                        total_token_1_amount: pool_state.token_1_vault_amount,
                        token_0_amount: smaller(
                            pool_state.token_0_vault_amount as int,
                            amounts.token_0_amount as int,
                        ) as u64,
                        token_1_amount: smaller(
                            pool_state.token_1_vault_amount as int,
                            amounts.token_1_amount as int,
                        ) as u64,
                    },
                )
            },
        }
    }
}

/// What [`withdraw_receipt`] gives.
pub open spec fn withdraw_receipt_spec(
    amounts: WithdrawAmounts,
    token_0_transfer_fee: u64,
    token_1_transfer_fee: u64,
    minimum_token_0_amount: u64,
    minimum_token_1_amount: u64,
) -> Result<WithdrawReceipt, GammaError> {
    if amounts.token_0_amount < token_0_transfer_fee || amounts.token_1_amount < token_1_transfer_fee {
        Err(GammaError::MathOverflow)
    } else if amounts.token_0_amount - token_0_transfer_fee < minimum_token_0_amount || amounts.token_1_amount
        - token_1_transfer_fee < minimum_token_1_amount {
        Err(GammaError::ExceededSlippage)
    } else {
        Ok(
            WithdrawReceipt {
                receive_token_0_amount: (amounts.token_0_amount - token_0_transfer_fee) as u64,
                token_0_transfer_fee,
                receive_token_1_amount: (amounts.token_1_amount - token_1_transfer_fee) as u64,
                token_1_transfer_fee,
            },
        )
    }
}

/// The pool after `amount` was taken back from the lending market.
pub open spec fn pool_after_kamino_withdrawal(pool_state: PoolState, amount: u64, token0_or_token1: bool) -> Option<
    PoolState,
> {
    if amount == 0 {
        Some(pool_state)
    } else if token0_or_token1 {
        if pool_state.token_0_amount_in_kamino < amount {
            None
        } else {
            Some(
                PoolState {
                    token_0_amount_in_kamino: (pool_state.token_0_amount_in_kamino - amount) as u64,
                    ..pool_state
                },
            )
        }
    } else {
        if pool_state.token_1_amount_in_kamino < amount {
            None
        } else {
            Some(
                PoolState {
                    token_1_amount_in_kamino: (pool_state.token_1_amount_in_kamino - amount) as u64,
                    ..pool_state
                },
            )
        }
    }
}

/// The slot of the partner table that loses liquidity tokens when the
/// holder withdraws: that of the holder's partner, where the table has it.
pub open spec fn partner_slot_of(pool_partners: PoolPartnerInfos, user_pool_liquidity: UserPoolLiquidity) -> Option<
    int,
> {
    match user_pool_liquidity.partner {
        Some(partner) => pool_partners.spec_slot(partner),
        None => None,
    }
}

/// Whether the withdrawal can be booked: nothing that is counted down goes
/// below zero, and the totals of the holder have room.
pub open spec fn withdraw_fits(
    pool_state: PoolState,
    user_pool_liquidity: UserPoolLiquidity,
    pool_partners: PoolPartnerInfos,
    lp_token_amount: u64,
    amounts: WithdrawAmounts,
    receipt: WithdrawReceipt,
) -> bool {
    &&& pool_state.lp_supply >= lp_token_amount
    &&& user_pool_liquidity.lp_tokens_owned >= lp_token_amount
    &&& user_pool_liquidity.token_0_withdrawn + receipt.receive_token_0_amount <= u128::MAX
    &&& user_pool_liquidity.token_1_withdrawn + receipt.receive_token_1_amount <= u128::MAX
    &&& match partner_slot_of(pool_partners, user_pool_liquidity) {
        Some(i) => pool_partners.infos@[i].lp_token_linked_with_partner >= lp_token_amount,
        None => true,
    }
    &&& pool_state.token_0_vault_amount >= amounts.token_0_amount
    &&& pool_state.token_1_vault_amount >= amounts.token_1_amount
}

/// What `lp_token_amount` liquidity tokens are worth in the two tokens of
/// the pool, rounded down so that those who stay lose nothing, and never
/// more than the pool has.
///
/// The pool has to allow withdrawals (`NotApproved`). A pool without supply
/// is `ZeroTradingTokens`.
pub fn withdraw_amounts(pool_state: &PoolState, lp_token_amount: u64) -> (r: Result<WithdrawAmounts, GammaError>)
    ensures
        r == withdraw_amounts_spec(*pool_state, lp_token_amount),
{
    if !pool_state.get_status_by_bit(PoolStatusBitIndex::Withdraw) {
        return Err(GammaError::NotApproved);
    }
    let (total_token_0_amount, total_token_1_amount) = match pool_state.vault_amount_without_fee() {
        Ok(v) => v,
        Err(e) => { return Err(e); },
    };
    let results = match CurveCalculator::lp_tokens_to_trading_tokens(
        lp_token_amount as u128,
        pool_state.lp_supply as u128,
        total_token_0_amount as u128,
        total_token_1_amount as u128,
        RoundDirection::Floor,
    ) {
        Some(v) => v,
        None => { return Err(GammaError::ZeroTradingTokens); },
    };
    if results.token_0_amount > u64::MAX as u128 {
        return Err(GammaError::MathOverflow);
    }
    let token_0_amount = results.token_0_amount as u64;
    let token_0_amount = if total_token_0_amount <= token_0_amount {
        total_token_0_amount
    } else {
        token_0_amount
    };
    if results.token_1_amount > u64::MAX as u128 {
        return Err(GammaError::MathOverflow);
    }
    let token_1_amount = results.token_1_amount as u64;
    let token_1_amount = if total_token_1_amount <= token_1_amount {
        total_token_1_amount
    } else {
        token_1_amount
    };
    Ok(WithdrawAmounts { total_token_0_amount, total_token_1_amount, token_0_amount, token_1_amount })
}

/// What the holder receives once the two transfer fees are known. Less than
/// a minimum that the holder set is `ExceededSlippage`.
pub fn withdraw_receipt(
    amounts: &WithdrawAmounts,
    token_0_transfer_fee: u64,
    token_1_transfer_fee: u64,
    minimum_token_0_amount: u64,
    minimum_token_1_amount: u64,
) -> (r: Result<WithdrawReceipt, GammaError>)
    ensures
        r == withdraw_receipt_spec(
            *amounts,
            token_0_transfer_fee,
            token_1_transfer_fee,
            minimum_token_0_amount,
            minimum_token_1_amount,
        ),
{
    let receive_token_0_amount = match amounts.token_0_amount.checked_sub(token_0_transfer_fee) {
        Some(v) => v,
        None => { return Err(GammaError::MathOverflow); },
    };
    let receive_token_1_amount = match amounts.token_1_amount.checked_sub(token_1_transfer_fee) {
        Some(v) => v,
        None => { return Err(GammaError::MathOverflow); },
    };
    if receive_token_0_amount < minimum_token_0_amount || receive_token_1_amount < minimum_token_1_amount {
        return Err(GammaError::ExceededSlippage);
    }
    Ok(
        WithdrawReceipt {
            receive_token_0_amount,
            token_0_transfer_fee,
            receive_token_1_amount,
            token_1_transfer_fee,
        },
    )
}

/// Books what was taken back from the lending market for a withdrawal, and
/// gives the place in the list of accounts where the next withdrawal from
/// the lending market reads on.
///
/// `amount_to_withdraw` is what the vault lacks, in liquidity tokens of the
/// lending market's reserve; with zero nothing is taken back and the place
/// is zero. Else the pool has that much less lent out of the token, and the
/// place is six accounts on. More than the pool has lent out is
/// `MathOverflow`.
pub fn withdraw_from_kamino_if_needed(
    pool_state: &mut PoolState,
    amount_to_withdraw: u64,
    token0_or_token1: bool,
    start_index: usize,
) -> (r: Result<usize, GammaError>)
    requires
        start_index + KAMINO_ACCOUNTS <= usize::MAX,
    ensures
        match pool_after_kamino_withdrawal(*old(pool_state), amount_to_withdraw, token0_or_token1) {
            Some(pool) => *final(pool_state) == pool && r == Ok::<usize, GammaError>(
                if amount_to_withdraw == 0 {
                    0usize
                } else {
                    (start_index + KAMINO_ACCOUNTS) as usize
                },
            ),
            None => *final(pool_state) == *old(pool_state) && r == Err::<usize, GammaError>(
                GammaError::MathOverflow,
            ),
        },
{
    if amount_to_withdraw == 0 {
        return Ok(0);
    }
    if token0_or_token1 {
        pool_state.token_0_amount_in_kamino = match pool_state.token_0_amount_in_kamino.checked_sub(
            amount_to_withdraw,
        ) {
            Some(v) => v,
            None => { return Err(GammaError::MathOverflow); },
        };
    } else {
        pool_state.token_1_amount_in_kamino = match pool_state.token_1_amount_in_kamino.checked_sub(
            amount_to_withdraw,
        ) {
            Some(v) => v,
            None => { return Err(GammaError::MathOverflow); },
        };
    }
    Ok(start_index + KAMINO_ACCOUNTS)
}

/// Books a withdrawal of `lp_token_amount` liquidity tokens.
///
/// The supply of the pool and the holding of the holder fall by the
/// liquidity tokens, the holder's totals withdrawn rise by what the holder
/// receives, the partner that brought the holder has that many liquidity
/// tokens fewer linked, and the balances of the pool fall by what leaves
/// it. Where anything would fall below zero or has no room, the error is
/// `MathOverflow` and nothing is changed.
pub fn withdraw(
    pool_state: &mut PoolState,
    user_pool_liquidity: &mut UserPoolLiquidity,
    pool_partners: &mut PoolPartnerInfos,
    lp_token_amount: u64,
    amounts: &WithdrawAmounts,
    receipt: &WithdrawReceipt,
) -> (r: Result<(), GammaError>)
    ensures
        old(pool_partners).wf() ==> final(pool_partners).wf(),
        if withdraw_fits(
            *old(pool_state),
            *old(user_pool_liquidity),
            *old(pool_partners),
            lp_token_amount,
            *amounts,
            *receipt,
        ) {
            &&& r.is_ok()
            &&& *final(pool_state) == (PoolState {
                lp_supply: (old(pool_state).lp_supply - lp_token_amount) as u64,
                token_0_vault_amount: (old(pool_state).token_0_vault_amount - amounts.token_0_amount) as u64,
                token_1_vault_amount: (old(pool_state).token_1_vault_amount - amounts.token_1_amount) as u64,
                ..*old(pool_state)
            })
            &&& *final(user_pool_liquidity) == (UserPoolLiquidity {
                lp_tokens_owned: (old(user_pool_liquidity).lp_tokens_owned - lp_token_amount) as u128,
                token_0_withdrawn: (old(user_pool_liquidity).token_0_withdrawn
                    + receipt.receive_token_0_amount) as u128,
                token_1_withdrawn: (old(user_pool_liquidity).token_1_withdrawn
                    + receipt.receive_token_1_amount) as u128,
                ..*old(user_pool_liquidity)
            })
            &&& final(pool_partners).last_observed_fee_amount_token_0 == old(pool_partners).last_observed_fee_amount_token_0
            &&& final(pool_partners).last_observed_fee_amount_token_1 == old(pool_partners).last_observed_fee_amount_token_1
            &&& match partner_slot_of(*old(pool_partners), *old(user_pool_liquidity)) {
                Some(i) => final(pool_partners).infos@ == old(pool_partners).infos@.update(
                    i,
                    PartnerInfo {
                        lp_token_linked_with_partner: (old(pool_partners).infos@[i].lp_token_linked_with_partner
                            - lp_token_amount) as u64,
                        ..old(pool_partners).infos@[i]
                    },
                ),
                None => final(pool_partners).infos == old(pool_partners).infos,
            }
        } else {
            &&& r == Err::<(), GammaError>(GammaError::MathOverflow)
            &&& *final(pool_state) == *old(pool_state)
            &&& *final(user_pool_liquidity) == *old(user_pool_liquidity)
            &&& *final(pool_partners) == *old(pool_partners)
        },
{
    let lp_supply = match pool_state.lp_supply.checked_sub(lp_token_amount) {
        Some(v) => v,
        None => { return Err(GammaError::MathOverflow); },
    };
    let lp_tokens_owned = match user_pool_liquidity.lp_tokens_owned.checked_sub(lp_token_amount as u128) {
        Some(v) => v,
        None => { return Err(GammaError::MathOverflow); },
    };
    let token_0_withdrawn = match user_pool_liquidity.token_0_withdrawn.checked_add(
        receipt.receive_token_0_amount as u128,
    ) {
        Some(v) => v,
        None => { return Err(GammaError::MathOverflow); },
    };
    let token_1_withdrawn = match user_pool_liquidity.token_1_withdrawn.checked_add(
        receipt.receive_token_1_amount as u128,
    ) {
        Some(v) => v,
        None => { return Err(GammaError::MathOverflow); },
    };
    let mut linked: Option<(usize, u64)> = None;
    if let Some(partner) = user_pool_liquidity.partner {
        if let Some(i) = pool_partners.slot_of(&partner) {
            match pool_partners.infos[i].lp_token_linked_with_partner.checked_sub(lp_token_amount) {
                Some(v) => { linked = Some((i, v)); },
                None => { return Err(GammaError::MathOverflow); },
            }
        }
    }
    let token_0_vault_amount = match pool_state.token_0_vault_amount.checked_sub(amounts.token_0_amount) {
        Some(v) => v,
        None => { return Err(GammaError::MathOverflow); },
    };
    let token_1_vault_amount = match pool_state.token_1_vault_amount.checked_sub(amounts.token_1_amount) {
        Some(v) => v,
        None => { return Err(GammaError::MathOverflow); },
    };
    pool_state.lp_supply = lp_supply;
    pool_state.token_0_vault_amount = token_0_vault_amount;
    pool_state.token_1_vault_amount = token_1_vault_amount;
    user_pool_liquidity.lp_tokens_owned = lp_tokens_owned;
    user_pool_liquidity.token_0_withdrawn = token_0_withdrawn;
    user_pool_liquidity.token_1_withdrawn = token_1_withdrawn;
    if let Some((i, v)) = linked {
        let mut info = pool_partners.infos[i];
        info.lp_token_linked_with_partner = v;
        pool_partners.infos[i] = info;
        proof {
            lemma_linked_total_after_lowering(
                old(pool_partners).infos@,
                pool_partners.infos@,
                i as int,
                PARTNER_SIZE as nat,
            );
        }
    }
    Ok(())
}

/// A slot that links fewer liquidity tokens than before, all else equal,
/// does not raise the total.
proof fn lemma_linked_total_after_lowering(
    before: Seq<PartnerInfo>,
    after: Seq<PartnerInfo>,
    slot: int,
    n: nat,
)
    requires
        n <= before.len(),
        before.len() == after.len(),
        0 <= slot < before.len(),
        after == before.update(slot, after[slot]),
        after[slot].partner == before[slot].partner,
        after[slot].lp_token_linked_with_partner <= before[slot].lp_token_linked_with_partner,
    ensures
        linked_total(after, n) <= linked_total(before, n),
    decreases n,
{
    if n > 0 {
        lemma_linked_total_after_lowering(before, after, slot, (n - 1) as nat);
    }
}

} // verus!
