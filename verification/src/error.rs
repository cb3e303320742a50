use vstd::prelude::*;

verus! {

/// Why an operation of the pool was refused.
#[derive(Clone, Copy, Debug, PartialEq, Eq, Structural)]
pub enum GammaError {
    /// A checked arithmetic step overflowed, underflowed or divided by zero.
    MathOverflow,
    /// A proportional share could not be computed or does not fit its counter.
    MathError,
    /// A fee split could not be computed.
    InvalidFee,
    /// A swap or a liquidity conversion gave no tokens.
    ZeroTradingTokens,
    /// The result is outside the bound that the caller set.
    ExceededSlippage,
    /// Every slot of the active reward table is taken.
    MaxRewardsReached,
    /// Every slot of the partner table is taken.
    ExceededMaxPartnersForPool,
    /// The partner is already registered with the pool.
    PartnerAlreadyExistsForPool,
    /// The partner is not registered with the pool.
    InvalidPartner,
    /// The pool does not allow the operation now.
    NotApproved,
    /// The vaults named are not the two vaults of the pool.
    InvalidVault,
    /// The parameter is not one that can be set, or its value is out of range.
    InvalidInput,
    /// The reward window does not lie in the future or is empty.
    InvalidRewardTime,
    /// A quantity that has to exceed another does not.
    RequireGtViolated,
    /// A quantity that has to reach another does not.
    RequireGteViolated,
    /// Two quantities that have to agree differ.
    RequireEqViolated,
    /// Two addresses that have to agree differ.
    RequireKeysEqViolated,
    /// An account does not hold what its kind of account holds.
    InvalidAccountData,
}

} // verus!
