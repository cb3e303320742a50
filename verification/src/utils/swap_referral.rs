use crate::error::GammaError;
use crate::utils::pubkey::Pubkey;
use vstd::prelude::*;

verus! {

/// The shares of referrers are numbers of parts of this.
pub const REFERRAL_SHARE_BPS: u64 = 10_000;

/// The referrer of a swap: its share of the fees, in parts of
/// [`REFERRAL_SHARE_BPS`], and where it is paid.
#[derive(Clone, Copy, Debug)]
pub struct ReferralDetails {
    pub share_bps: u16,
    pub referral_token_account: Pubkey,
}

/// A fee split between the referrer and those it is taken from.
#[derive(Clone, Copy, Debug, PartialEq, Eq, Structural)]
pub struct ReferralResult {
    pub referral_amount: u64,
    pub amount_after_referral: u64,
}

/// What the two accounts that come with a referred swap hold.
#[derive(Clone, Copy, Debug)]
pub struct ReferralAccounts {
    /// The programme that owns the referral account.
    pub referral_account_owner: Pubkey,
    /// The project that the referral account names.
    pub referral_project: Pubkey,
    /// The share that the referral account promises the referrer.
    pub share_bps: u16,
    /// The address of the token account that came with the swap.
    pub referral_token_account: Pubkey,
    /// The address that the referral programme gives the referrer's account
    /// for the token that is swapped in.
    pub expected_token_account: Pubkey,
    /// The balance of native coin of the token account: zero where the
    /// account does not exist.
    pub token_account_lamports: u64,
    /// The owner that the token account names, if it holds one.
    pub token_account_owner: Option<Pubkey>,
}

/// What [`extract_referral_info`] gives for the accounts of a referred swap.
pub open spec fn referral_info_spec(referral_program: Pubkey, project_key: Pubkey, accounts: ReferralAccounts) -> Result<
    Option<ReferralDetails>,
    GammaError,
> {
    if accounts.referral_account_owner != referral_program || project_key != accounts.referral_project
        || accounts.referral_token_account != accounts.expected_token_account {
        Err(GammaError::RequireKeysEqViolated)
    } else if accounts.token_account_lamports == 0 {
        Ok(None)
    } else {
        match accounts.token_account_owner {
            None => Err(GammaError::InvalidAccountData),
            Some(owner) => if project_key != owner {
                Err(GammaError::RequireKeysEqViolated)
            } else {
                Ok(
                    Some(
                        ReferralDetails {
                            share_bps: accounts.share_bps,
                            referral_token_account: accounts.referral_token_account,
                        },
                    ),
                )
            },
        }
    }
}

/// Decides whether a swap has a referrer that is to be paid.
///
/// Without both accounts there is none. With them, the referral account has
/// to belong to the referral programme and name the project of the pool, and
/// the token account has to be the one that the programme gives the referrer:
/// else the swap is refused. A token account that does not exist yet means
/// no referrer. One that exists has to name the project as its owner.
pub fn extract_referral_info(referral_program: Pubkey, project_key: Pubkey, accounts: Option<ReferralAccounts>) -> (r: Result<
    Option<ReferralDetails>,
    GammaError,
>)
    ensures
        match accounts {
            None => r == Ok::<Option<ReferralDetails>, GammaError>(None),
            Some(a) => r == referral_info_spec(referral_program, project_key, a),
        },
{
    let accounts = match accounts {
        Some(a) => a,
        None => { return Ok(None); },
    };
    if accounts.referral_account_owner != referral_program {
        return Err(GammaError::RequireKeysEqViolated);
    }
    if project_key != accounts.referral_project {
        return Err(GammaError::RequireKeysEqViolated);
    }
    if accounts.referral_token_account != accounts.expected_token_account {
        return Err(GammaError::RequireKeysEqViolated);
    }
    if accounts.token_account_lamports == 0 {
        return Ok(None);
    }
    let owner = match accounts.token_account_owner {
        Some(o) => o,
        None => { return Err(GammaError::InvalidAccountData); },
    };
    if project_key != owner {
        return Err(GammaError::RequireKeysEqViolated);
    }
    Ok(
        Some(
            ReferralDetails {
                share_bps: accounts.share_bps,
                referral_token_account: accounts.referral_token_account,
            },
        ),
    )
}

/// The split of `amount` at a share of `share_bps`.
pub open spec fn referral_split(amount: u64, share_bps: u16) -> Result<ReferralResult, GammaError> {
    if amount * share_bps > u64::MAX {
        Err(GammaError::MathOverflow)
    } else {
        let referral_amount = (amount * share_bps) / (REFERRAL_SHARE_BPS as int);
        Ok(
            ReferralResult {
                referral_amount: referral_amount as u64,
                amount_after_referral: if referral_amount <= amount {
                    (amount - referral_amount) as u64
                } else {
                    0
                },
            },
        )
    }
}

impl ReferralDetails {
    /// The part of `amount` that goes to the referrer, rounded down, and
    /// what is left: nothing where the referrer's part is more than the
    /// amount. A product without room in 64 bits is `MathOverflow`.
    pub fn get_referral_amount(&self, amount: u64) -> (r: Result<ReferralResult, GammaError>)
        ensures
            r == referral_split(amount, self.share_bps),
            r.is_ok() && self.share_bps <= REFERRAL_SHARE_BPS ==> r.unwrap().referral_amount
                + r.unwrap().amount_after_referral == amount,
    {
        let product = match amount.checked_mul(self.share_bps as u64) {
            Some(v) => v,
            None => { return Err(GammaError::MathOverflow); },
        };
        let referral_amount = product / REFERRAL_SHARE_BPS;
        let amount_after_referral = match amount.checked_sub(referral_amount) {
            Some(v) => v,
            None => 0,
        };
        proof {
            if self.share_bps <= REFERRAL_SHARE_BPS {
                assert((amount * self.share_bps) / (REFERRAL_SHARE_BPS as int) <= amount) by (nonlinear_arith)
                    requires
                        0 <= self.share_bps <= REFERRAL_SHARE_BPS,
                        REFERRAL_SHARE_BPS == 10_000,
                        0 <= amount,
                ;
            }
        }
        Ok(ReferralResult { referral_amount, amount_after_referral })
    }
}

} // verus!
