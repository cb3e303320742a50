use crate::error::GammaError;
use crate::utils::pubkey::Pubkey;
use vstd::prelude::*;

verus! {

/// Prices of one token in the other are held with 32 fractional bits.
pub const Q32: u128 = 0x1_0000_0000;

/// The operations that the status byte of a pool can switch off, each by the
/// bit of its position.
#[derive(Clone, Copy, Debug, PartialEq, Eq, Structural)]
pub enum PoolStatusBitIndex {
    Deposit,
    Withdraw,
    Swap,
}

impl PoolStatusBitIndex {
    /// The mask of the operation in the status byte.
    pub open spec fn spec_mask(&self) -> u8 {
        match self {
            PoolStatusBitIndex::Deposit => 1u8,
            PoolStatusBitIndex::Withdraw => 2u8,
            PoolStatusBitIndex::Swap => 4u8,
        }
    }

    pub fn mask(&self) -> (m: u8)
        ensures
            m == self.spec_mask(),
    {
        match self {
            PoolStatusBitIndex::Deposit => 1u8,
            PoolStatusBitIndex::Withdraw => 2u8,
            PoolStatusBitIndex::Swap => 4u8,
        }
    }
}

/// What a pool holds and how it is set, as one swap or one change of
/// liquidity reads and writes it.
#[derive(Clone, Copy, Debug)]
pub struct PoolState {
    pub amm_config: Pubkey,
    pub token_0_vault: Pubkey,
    pub token_1_vault: Pubkey,
    pub token_0_mint: Pubkey,
    pub token_1_mint: Pubkey,
    pub observation_key: Pubkey,
    pub auth_bump: u8,
    /// A set bit switches the operation of that position off.
    pub status: u8,
    pub lp_supply: u64,
    pub protocol_fees_token_0: u64,
    pub protocol_fees_token_1: u64,
    pub fund_fees_token_0: u64,
    pub fund_fees_token_1: u64,
    pub open_time: u64,
    pub recent_epoch: u64,
    pub cumulative_trade_fees_token_0: u128,
    pub cumulative_trade_fees_token_1: u128,
    pub cumulative_volume_token_0: u128,
    pub cumulative_volume_token_1: u128,
    pub latest_dynamic_fee_rate: u64,
    pub max_trade_fee_rate: u64,
    pub volatility_factor: u64,
    /// What the pool owns of each token, fees owed left out, whether it lies
    /// in the vault or is lent out.
    pub token_0_vault_amount: u64,
    pub token_1_vault_amount: u64,
    pub max_shared_token0: u64,
    pub max_shared_token1: u64,
    pub token_0_amount_in_kamino: u64,
    pub token_1_amount_in_kamino: u64,
    pub partner_share_rate: u64,
    pub partner_protocol_fees_token_0: u64,
    pub partner_protocol_fees_token_1: u64,
    /// Price of token 0 in token 1, scaled by 10^9; zero when none was given.
    pub oracle_price_token_0_by_token_1: u128,
    pub oracle_price_updated_at: u64,
    pub max_oracle_price_update_time_diff: u32,
    pub acceptable_price_difference: u32,
    pub max_amount_swappable_at_oracle_price: u32,
    pub min_trade_rate_at_oracle_price: u32,
    pub price_premium_for_swap_at_oracle_price: u32,
}

/// The counters that a pool keeps of one of its two tokens.
#[derive(Clone, Copy, Debug, PartialEq, Eq, Structural)]
pub struct TokenLedger {
    pub protocol_fees: u64,
    pub partner_protocol_fees: u64,
    pub fund_fees: u64,
    pub cumulative_trade_fees: u128,
    pub cumulative_volume: u128,
    pub vault_amount: u64,
}

impl PoolState {
    /// The counters of token 0, or of token 1.
    pub open spec fn spec_ledger(&self, token_0: bool) -> TokenLedger {
        if token_0 {
            TokenLedger {
                protocol_fees: self.protocol_fees_token_0,
                partner_protocol_fees: self.partner_protocol_fees_token_0,
                fund_fees: self.fund_fees_token_0,
                cumulative_trade_fees: self.cumulative_trade_fees_token_0,
                cumulative_volume: self.cumulative_volume_token_0,
                vault_amount: self.token_0_vault_amount,
            }
        } else {
            TokenLedger {
                protocol_fees: self.protocol_fees_token_1,
                partner_protocol_fees: self.partner_protocol_fees_token_1,
                fund_fees: self.fund_fees_token_1,
                cumulative_trade_fees: self.cumulative_trade_fees_token_1,
                cumulative_volume: self.cumulative_volume_token_1,
                vault_amount: self.token_1_vault_amount,
            }
        }
    }

    /// The pool with the counters of token 0, or of token 1, replaced.
    pub open spec fn spec_with_ledger(&self, token_0: bool, ledger: TokenLedger) -> PoolState {
        if token_0 {
            PoolState {
                protocol_fees_token_0: ledger.protocol_fees,
                partner_protocol_fees_token_0: ledger.partner_protocol_fees,
                fund_fees_token_0: ledger.fund_fees,
                cumulative_trade_fees_token_0: ledger.cumulative_trade_fees,
                cumulative_volume_token_0: ledger.cumulative_volume,
                token_0_vault_amount: ledger.vault_amount,
                ..*self
            }
        } else {
            PoolState {
                protocol_fees_token_1: ledger.protocol_fees,
                partner_protocol_fees_token_1: ledger.partner_protocol_fees,
                fund_fees_token_1: ledger.fund_fees,
                cumulative_trade_fees_token_1: ledger.cumulative_trade_fees,
                cumulative_volume_token_1: ledger.cumulative_volume,
                token_1_vault_amount: ledger.vault_amount,
                ..*self
            }
        }
    }

    /// The counters of token 0, or of token 1.
    pub fn ledger(&self, token_0: bool) -> (ledger: TokenLedger)
        ensures
            ledger == self.spec_ledger(token_0),
    {
        if token_0 {
            TokenLedger {
                protocol_fees: self.protocol_fees_token_0,
                partner_protocol_fees: self.partner_protocol_fees_token_0,
                fund_fees: self.fund_fees_token_0,
                cumulative_trade_fees: self.cumulative_trade_fees_token_0,
                cumulative_volume: self.cumulative_volume_token_0,
                vault_amount: self.token_0_vault_amount,
            }
        } else {
            TokenLedger {
                protocol_fees: self.protocol_fees_token_1,
                partner_protocol_fees: self.partner_protocol_fees_token_1,
                fund_fees: self.fund_fees_token_1,
                cumulative_trade_fees: self.cumulative_trade_fees_token_1,
                cumulative_volume: self.cumulative_volume_token_1,
                vault_amount: self.token_1_vault_amount,
            }
        }
    }

    /// Replaces the counters of token 0, or of token 1.
    pub fn set_ledger(&mut self, token_0: bool, ledger: TokenLedger)
        ensures
            *final(self) == old(self).spec_with_ledger(token_0, ledger),
    {
        if token_0 {
            self.protocol_fees_token_0 = ledger.protocol_fees;
            self.partner_protocol_fees_token_0 = ledger.partner_protocol_fees;
            self.fund_fees_token_0 = ledger.fund_fees;
            self.cumulative_trade_fees_token_0 = ledger.cumulative_trade_fees;
            self.cumulative_volume_token_0 = ledger.cumulative_volume;
            self.token_0_vault_amount = ledger.vault_amount;
        } else {
            self.protocol_fees_token_1 = ledger.protocol_fees;
            self.partner_protocol_fees_token_1 = ledger.partner_protocol_fees;
            self.fund_fees_token_1 = ledger.fund_fees;
            self.cumulative_trade_fees_token_1 = ledger.cumulative_trade_fees;
            self.cumulative_volume_token_1 = ledger.cumulative_volume;
            self.token_1_vault_amount = ledger.vault_amount;
        }
    }

    /// The direction of a swap between the two vaults named: nothing where
    /// they are not the two vaults of the pool.
    pub open spec fn spec_direction(&self, input_vault: Pubkey, output_vault: Pubkey) -> Option<bool> {
        if input_vault == self.token_0_vault && output_vault == self.token_1_vault {
            Some(true)
        } else if input_vault == self.token_1_vault && output_vault == self.token_0_vault {
            Some(false)
        } else {
            None
        }
    }

    /// Whether a swap from `input_vault` to `output_vault` takes token 0 in:
    /// nothing where the two are not the two vaults of the pool.
    pub fn zero_for_one(&self, input_vault: &Pubkey, output_vault: &Pubkey) -> (r: Option<bool>)
        ensures
            r == self.spec_direction(*input_vault, *output_vault),
    {
        if *input_vault == self.token_0_vault && *output_vault == self.token_1_vault {
            Some(true)
        } else if *input_vault == self.token_1_vault && *output_vault == self.token_0_vault {
            Some(false)
        } else {
            None
        }
    }

    /// The pool with every number zero and every address empty.
    pub open spec fn spec_default() -> PoolState {
        PoolState {
            amm_config: Pubkey::spec_default(),
            token_0_vault: Pubkey::spec_default(),
            token_1_vault: Pubkey::spec_default(),
            token_0_mint: Pubkey::spec_default(),
            token_1_mint: Pubkey::spec_default(),
            observation_key: Pubkey::spec_default(),
            auth_bump: 0,
            status: 0,
            lp_supply: 0,
            protocol_fees_token_0: 0,
            protocol_fees_token_1: 0,
            fund_fees_token_0: 0,
            fund_fees_token_1: 0,
            open_time: 0,
            recent_epoch: 0,
            cumulative_trade_fees_token_0: 0,
            cumulative_trade_fees_token_1: 0,
            cumulative_volume_token_0: 0,
            cumulative_volume_token_1: 0,
            latest_dynamic_fee_rate: 0,
            max_trade_fee_rate: 0,
            volatility_factor: 0,
            token_0_vault_amount: 0,
            token_1_vault_amount: 0,
            max_shared_token0: 0,
            max_shared_token1: 0,
            token_0_amount_in_kamino: 0,
            token_1_amount_in_kamino: 0,
            partner_share_rate: 0,
            partner_protocol_fees_token_0: 0,
            partner_protocol_fees_token_1: 0,
            oracle_price_token_0_by_token_1: 0,
            oracle_price_updated_at: 0,
            max_oracle_price_update_time_diff: 0,
            acceptable_price_difference: 0,
            max_amount_swappable_at_oracle_price: 0,
            min_trade_rate_at_oracle_price: 0,
            price_premium_for_swap_at_oracle_price: 0,
        }
    }

    /// Whether the status byte leaves the operation on.
    pub open spec fn spec_status_by_bit(&self, bit: PoolStatusBitIndex) -> bool {
        self.status & bit.spec_mask() == 0
    }

    /// Whether the status byte leaves the operation on.
    pub fn get_status_by_bit(&self, bit: PoolStatusBitIndex) -> (enabled: bool)
        ensures
            enabled == self.spec_status_by_bit(bit),
    {
        self.status & bit.mask() == 0
    }

    /// Replaces the status byte.
    pub fn set_status(&mut self, status: u8)
        ensures
            *final(self) == (PoolState { status, ..*old(self) }),
    {
        self.status = status;
    }

    /// The two balances that the pool trades on.
    pub open spec fn spec_vault_amounts(&self) -> (u64, u64) {
        (self.token_0_vault_amount, self.token_1_vault_amount)
    }

    /// The two balances that the pool trades on, token 0 first. They leave
    /// out the fees owed to the protocol, the fund and the partners, which
    /// are kept on counters of their own.
    pub fn vault_amount_without_fee(&self) -> (amounts: Result<(u64, u64), GammaError>)
        ensures
            amounts == Ok::<(u64, u64), GammaError>(self.spec_vault_amounts()),
    {
        Ok((self.token_0_vault_amount, self.token_1_vault_amount))
    }

    /// The price of each token in the other, with 32 fractional bits, or
    /// nothing where a balance is zero.
    pub open spec fn spec_token_price_x32(&self) -> Option<(u128, u128)> {
        if self.token_0_vault_amount == 0 || self.token_1_vault_amount == 0 {
            None
        } else {
            Some(
                (
                    (self.token_1_vault_amount as int * Q32 as int / self.token_0_vault_amount as int) as u128,
                    (self.token_0_vault_amount as int * Q32 as int / self.token_1_vault_amount as int) as u128,
                ),
            )
        }
    }

    /// The price of token 0 in token 1 and of token 1 in token 0, each with
    /// 32 fractional bits and rounded down. A pool with an empty side has no
    /// price: that is `MathOverflow`.
    pub fn token_price_x32(&self) -> (prices: Result<(u128, u128), GammaError>)
        ensures
            match self.spec_token_price_x32() {
                Some(p) => prices == Ok::<(u128, u128), GammaError>(p),
                None => prices == Err::<(u128, u128), GammaError>(GammaError::MathOverflow),
            },
    {
        let amount_0 = self.token_0_vault_amount as u128;
        let amount_1 = self.token_1_vault_amount as u128;
        if amount_0 == 0 || amount_1 == 0 {
            return Err(GammaError::MathOverflow);
        }
        assert(amount_1 * Q32 <= u128::MAX && amount_0 * Q32 <= u128::MAX) by (nonlinear_arith)
            requires
                amount_0 <= u64::MAX,
                amount_1 <= u64::MAX,
                Q32 == 0x1_0000_0000,
        ;
        Ok((amount_1 * Q32 / amount_0, amount_0 * Q32 / amount_1))
    }
}

impl Default for PoolState {
    fn default() -> (pool: PoolState)
        ensures
            pool == PoolState::spec_default(),
    {
        PoolState {
            amm_config: Pubkey::default(),
            token_0_vault: Pubkey::default(),
            token_1_vault: Pubkey::default(),
            token_0_mint: Pubkey::default(),
            token_1_mint: Pubkey::default(),
            observation_key: Pubkey::default(),
            auth_bump: 0,
            status: 0,
            lp_supply: 0,
            protocol_fees_token_0: 0,
            protocol_fees_token_1: 0,
            fund_fees_token_0: 0,
            fund_fees_token_1: 0,
            open_time: 0,
            recent_epoch: 0,
            cumulative_trade_fees_token_0: 0,
            cumulative_trade_fees_token_1: 0,
            cumulative_volume_token_0: 0,
            cumulative_volume_token_1: 0,
            latest_dynamic_fee_rate: 0,
            max_trade_fee_rate: 0,
            volatility_factor: 0,
            token_0_vault_amount: 0,
            token_1_vault_amount: 0,
            max_shared_token0: 0,
            max_shared_token1: 0,
            token_0_amount_in_kamino: 0,
            token_1_amount_in_kamino: 0,
            partner_share_rate: 0,
            partner_protocol_fees_token_0: 0,
            partner_protocol_fees_token_1: 0,
            oracle_price_token_0_by_token_1: 0,
            oracle_price_updated_at: 0,
            max_oracle_price_update_time_diff: 0,
            acceptable_price_difference: 0,
            max_amount_swappable_at_oracle_price: 0,
            min_trade_rate_at_oracle_price: 0,
            price_premium_for_swap_at_oracle_price: 0,
        }
    }
}

} // verus!
