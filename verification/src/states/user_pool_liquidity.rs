use crate::utils::pubkey::Pubkey;
use vstd::prelude::*;

verus! {

/// What one holder of liquidity tokens has put into a pool and taken out.
#[derive(Clone, Copy, Debug)]
pub struct UserPoolLiquidity {
    pub user: Pubkey,
    pub pool_state: Pubkey,
    pub token_0_deposited: u128,
    pub token_1_deposited: u128,
    pub token_0_withdrawn: u128,
    pub token_1_withdrawn: u128,
    pub lp_tokens_owned: u128,
    pub first_investment_at: u64,
    /// The partner that brought the holder, if one did.
    pub partner: Option<Pubkey>,
}

impl UserPoolLiquidity {
    /// The record of a holder who has put in nothing yet.
    pub open spec fn spec_initial(user: Pubkey, pool_state: Pubkey, partner: Option<Pubkey>, current_time: u64) -> UserPoolLiquidity {
        UserPoolLiquidity {
            user,
            pool_state,
            token_0_deposited: 0,
            token_1_deposited: 0,
            token_0_withdrawn: 0,
            token_1_withdrawn: 0,
            lp_tokens_owned: 0,
            first_investment_at: current_time,
            partner,
        }
    }

    /// Sets the record to that of a holder who has put in nothing yet.
    pub fn initialize(&mut self, user: Pubkey, pool_state: Pubkey, partner: Option<Pubkey>, current_time: u64)
        ensures
            *final(self) == UserPoolLiquidity::spec_initial(user, pool_state, partner, current_time),
    {
        self.user = user;
        self.pool_state = pool_state;
        self.token_0_deposited = 0;
        self.token_1_deposited = 0;
        self.token_0_withdrawn = 0;
        self.token_1_withdrawn = 0;
        self.lp_tokens_owned = 0;
        self.partner = partner;
        self.first_investment_at = current_time;
    }

    /// The record of a holder who has put in nothing yet.
    pub fn new(user: Pubkey, pool_state: Pubkey, partner: Option<Pubkey>, current_time: u64) -> (record: UserPoolLiquidity)
        ensures
            record == UserPoolLiquidity::spec_initial(user, pool_state, partner, current_time),
    {
        UserPoolLiquidity {
            user,
            pool_state,
            token_0_deposited: 0,
            token_1_deposited: 0,
            token_0_withdrawn: 0,
            token_1_withdrawn: 0,
            lp_tokens_owned: 0,
            first_investment_at: current_time,
            partner,
        }
    }
}

} // verus!
