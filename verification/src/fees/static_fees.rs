use crate::fees::{floor_div, floor_div_value, FEE_RATE_DENOMINATOR_VALUE};
use vstd::prelude::*;

verus! {

/// The split of a trade fee by the fixed rates of the fee schedule.
pub struct StaticFee {}

impl StaticFee {
    /// The share of `amount` at `rate` parts of the denominator, rounded down.
    pub open spec fn spec_share(amount: u128, rate: u64) -> int {
        floor_div_value(amount as int, rate as int, FEE_RATE_DENOMINATOR_VALUE as int)
    }

    /// The part of the trade fee `amount` that goes to the protocol, rounded
    /// down; nothing where `amount * protocol_fee_rate` has no room.
    pub fn protocol_fee(amount: u128, protocol_fee_rate: u64) -> (fee: Option<u128>)
        ensures
            fee.is_some() <==> amount * protocol_fee_rate <= u128::MAX,
            fee.is_some() ==> fee.unwrap() == Self::spec_share(amount, protocol_fee_rate),
    {
        floor_div(amount, protocol_fee_rate as u128, FEE_RATE_DENOMINATOR_VALUE as u128)
    }

    /// The part of the trade fee `amount` that goes to the fund, rounded
    /// down; nothing where `amount * fund_fee_rate` has no room.
    pub fn fund_fee(amount: u128, fund_fee_rate: u64) -> (fee: Option<u128>)
        ensures
            fee.is_some() <==> amount * fund_fee_rate <= u128::MAX,
            fee.is_some() ==> fee.unwrap() == Self::spec_share(amount, fund_fee_rate),
    {
        floor_div(amount, fund_fee_rate as u128, FEE_RATE_DENOMINATOR_VALUE as u128)
    }

    /// The two shares together never exceed the fee they are taken from, as
    /// long as the two rates together do not exceed the denominator.
    pub proof fn lemma_shares_within_fee(amount: u128, protocol_fee_rate: u64, fund_fee_rate: u64)
        requires
            protocol_fee_rate + fund_fee_rate <= FEE_RATE_DENOMINATOR_VALUE,
        ensures
            0 <= Self::spec_share(amount, protocol_fee_rate),
            0 <= Self::spec_share(amount, fund_fee_rate),
            Self::spec_share(amount, protocol_fee_rate) + Self::spec_share(amount, fund_fee_rate) <= amount,
    {
        let a = amount as int;
        let p = protocol_fee_rate as int;
        let f = fund_fee_rate as int;
        let d = FEE_RATE_DENOMINATOR_VALUE as int;
        assert(0 <= (a * p) / d && 0 <= (a * f) / d && (a * p) / d + (a * f) / d <= a)
            by (nonlinear_arith)
            requires
                0 <= a,
                0 <= p,
                0 <= f,
                p + f <= d,
                d == 1_000_000,
        ;
    }
}

} // verus!
