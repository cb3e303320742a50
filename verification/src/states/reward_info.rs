use crate::error::GammaError;
use crate::utils::decimal::Dec;
use crate::utils::pubkey::Pubkey;
use vstd::prelude::*;

verus! {

/// A stream of rewards: from `start_at` to `end_rewards_at` it pays
/// `emission_per_second` of the reward token each second, shared among the
/// holders of liquidity tokens.
#[derive(Clone, Copy, Debug)]
pub struct RewardInfo {
    pub pool: Pubkey,
    pub start_at: u64,
    pub end_rewards_at: u64,
    pub mint: Pubkey,
    /// What was paid in for the stream.
    pub total_to_disburse: u64,
    pub rewarded_by: Pubkey,
    /// What has been paid out.
    pub amount_disbursed: u64,
    pub emission_per_second: u64,
}

impl RewardInfo {
    /// The seconds that the stream runs, as a decimal number.
    /// A stream that ends before it starts is `MathOverflow`.
    pub fn get_time_diff(&self) -> (r: Result<Dec, GammaError>)
        ensures
            r == if self.end_rewards_at < self.start_at {
                Err::<Dec, GammaError>(GammaError::MathOverflow)
            } else {
                Ok::<Dec, GammaError>(
                    Dec { mantissa: (self.end_rewards_at - self.start_at) as i128, scale: 0 },
                )
            },
    {
        let time_diff = match self.end_rewards_at.checked_sub(self.start_at) {
            Some(v) => v,
            None => { return Err(GammaError::MathOverflow); },
        };
        match Dec::from_u64(time_diff) {
            Some(d) => Ok(d),
            None => Err(GammaError::MathOverflow),
        }
    }

    /// What is left of the stream to pay out. More paid out than paid in is
    /// `MathOverflow`.
    pub fn get_amount_left_to_disburse(&self) -> (r: Result<u64, GammaError>)
        ensures
            r == if self.amount_disbursed > self.total_to_disburse {
                Err::<u64, GammaError>(GammaError::MathOverflow)
            } else {
                Ok::<u64, GammaError>((self.total_to_disburse - self.amount_disbursed) as u64)
            },
    {
        match self.total_to_disburse.checked_sub(self.amount_disbursed) {
            Some(v) => Ok(v),
            None => Err(GammaError::MathOverflow),
        }
    }
}

} // verus!
