use vstd::prelude::*;

pub mod dynamic_fee;
pub mod static_fees;

verus! {

/// One basis point, in parts of [`FEE_RATE_DENOMINATOR_VALUE`].
pub const ONE_BASIS_POINT: u64 = 100;

/// Every rate of the pool is a number of parts of this denominator.
pub const FEE_RATE_DENOMINATOR_VALUE: u64 = 1_000_000;

/// At most half of a side of the pool may be lent out.
pub const MAX_SHARED_WITH_KAMINO_RATE: u64 = 500_000;

/// The mathematical value of `amount * numerator / denominator`, rounded up.
pub open spec fn ceil_div_value(amount: int, numerator: int, denominator: int) -> int {
    (amount * numerator + denominator - 1) / denominator
}

/// The mathematical value of `amount * numerator / denominator`, rounded down.
pub open spec fn floor_div_value(amount: int, numerator: int, denominator: int) -> int {
    (amount * numerator) / denominator
}

/// `amount * numerator / denominator`, rounded up, with every step checked.
///
/// The result is `None` when the denominator is zero or when
/// `amount * numerator + denominator` does not fit in 128 bits.
pub fn ceil_div(token_amount: u128, fee_numerator: u128, fee_denominator: u128) -> (result: Option<u128>)
    ensures
        result.is_some() <==> (fee_denominator > 0
            && token_amount * fee_numerator + fee_denominator <= u128::MAX),
        result.is_some() ==> result.unwrap() == ceil_div_value(
            token_amount as int,
            fee_numerator as int,
            fee_denominator as int,
        ),
{
    let product = token_amount.checked_mul(fee_numerator)?;
    let shifted = product.checked_add(fee_denominator)?;
    let lowered = shifted.checked_sub(1)?;
    lowered.checked_div(fee_denominator)
}

/// `amount * numerator / denominator`, rounded down, with every step checked.
///
/// The result is `None` when the denominator is zero or when
/// `amount * numerator` does not fit in 128 bits.
pub fn floor_div(token_amount: u128, fee_numerator: u128, fee_denominator: u128) -> (result: Option<u128>)
    ensures
        result.is_some() <==> (fee_denominator > 0 && token_amount * fee_numerator <= u128::MAX),
        result.is_some() ==> result.unwrap() == floor_div_value(
            token_amount as int,
            fee_numerator as int,
            fee_denominator as int,
        ),
{
    let product = token_amount.checked_mul(fee_numerator)?;
    product.checked_div(fee_denominator)
}

} // verus!
