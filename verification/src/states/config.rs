use crate::fees::FEE_RATE_DENOMINATOR_VALUE;
use crate::utils::pubkey::Pubkey;
use vstd::prelude::*;

verus! {

/// The fee schedule that a group of pools shares.
///
/// Every rate is a number of parts of [`FEE_RATE_DENOMINATOR_VALUE`]. The
/// protocol and fund rates are taken from the trade fee, not from the trade.
#[derive(Clone, Copy, Debug)]
pub struct AmmConfig {
    pub index: u16,
    pub trade_fee_rate: u64,
    pub protocol_fee_rate: u64,
    pub fund_fee_rate: u64,
    pub create_pool_fee: u64,
    pub protocol_owner: Pubkey,
    pub fund_owner: Pubkey,
    pub referral_project: Pubkey,
    pub secondary_admin: Pubkey,
}

impl AmmConfig {
    /// Each rate is below the denominator.
    pub open spec fn wf(&self) -> bool {
        &&& self.trade_fee_rate < FEE_RATE_DENOMINATOR_VALUE
        &&& self.protocol_fee_rate < FEE_RATE_DENOMINATOR_VALUE
        &&& self.fund_fee_rate < FEE_RATE_DENOMINATOR_VALUE
    }

    /// A schedule with the three rates given and every other field empty.
    pub fn new(index: u16, trade_fee_rate: u64, protocol_fee_rate: u64, fund_fee_rate: u64) -> (config: AmmConfig)
        ensures
            config.index == index,
            config.trade_fee_rate == trade_fee_rate,
            config.protocol_fee_rate == protocol_fee_rate,
            config.fund_fee_rate == fund_fee_rate,
            config.create_pool_fee == 0,
            config.protocol_owner == Pubkey::spec_default(),
            config.fund_owner == Pubkey::spec_default(),
            config.referral_project == Pubkey::spec_default(),
            config.secondary_admin == Pubkey::spec_default(),
    {
        AmmConfig {
            index,
            trade_fee_rate,
            protocol_fee_rate,
            fund_fee_rate,
            create_pool_fee: 0,
            protocol_owner: Pubkey::default(),
            fund_owner: Pubkey::default(),
            referral_project: Pubkey::default(),
            secondary_admin: Pubkey::default(),
        }
    }
}

} // verus!
