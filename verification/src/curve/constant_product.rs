use crate::curve::{RoundDirection, TradingTokenResult};
use crate::error::GammaError;
use vstd::prelude::*;

verus! {

/// What a swap of `source_amount`, fees taken off already, pays out of a pool
/// with the two balances given: `source * y / (x + source)`, rounded down.
pub open spec fn output_for_input(source_amount: int, swap_source_amount: int, swap_destination_amount: int) -> int {
    (source_amount * swap_destination_amount) / (swap_source_amount + source_amount)
}

/// What has to come in, before fees, for `destination_amount` to go out:
/// `x * destination / (y - destination)`, rounded up.
pub open spec fn input_for_output(destination_amount: int, swap_source_amount: int, swap_destination_amount: int) -> int {
    let remaining = swap_destination_amount - destination_amount;
    (swap_source_amount * destination_amount + remaining - 1) / remaining
}

/// What [`ConstantProductCurve::swap_base_input_without_fees`] gives.
pub open spec fn swap_base_input_without_fees_spec(
    source_amount: u128,
    swap_source_amount: u128,
    swap_destination_amount: u128,
) -> Result<u128, GammaError> {
    if source_amount * swap_destination_amount > u128::MAX || swap_source_amount + source_amount > u128::MAX
        || swap_source_amount + source_amount == 0 {
        Err(GammaError::MathOverflow)
    } else {
        Ok(
            output_for_input(
                source_amount as int,
                swap_source_amount as int,
                swap_destination_amount as int,
            ) as u128,
        )
    }
}

/// What [`ConstantProductCurve::swap_base_output_without_fees`] gives.
pub open spec fn swap_base_output_without_fees_spec(
    destination_amount: u128,
    swap_source_amount: u128,
    swap_destination_amount: u128,
) -> Result<u128, GammaError> {
    if destination_amount >= swap_destination_amount || swap_source_amount * destination_amount + (
    swap_destination_amount - destination_amount) > u128::MAX {
        Err(GammaError::MathOverflow)
    } else {
        Ok(
            input_for_output(
                destination_amount as int,
                swap_source_amount as int,
                swap_destination_amount as int,
            ) as u128,
        )
    }
}

/// The share of `token_amount` that `lp_token_amount` out of `lp_token_supply`
/// liquidity tokens stands for.
pub open spec fn proportional_share(
    lp_token_amount: int,
    lp_token_supply: int,
    token_amount: int,
    round_direction: RoundDirection,
) -> int {
    match round_direction {
        RoundDirection::Floor => (lp_token_amount * token_amount) / lp_token_supply,
        RoundDirection::Ceiling => (lp_token_amount * token_amount + lp_token_supply - 1) / lp_token_supply,
    }
}

/// What [`ConstantProductCurve::lp_tokens_to_trading_tokens`] gives.
pub open spec fn lp_tokens_to_trading_tokens_spec(
    lp_token_amount: u128,
    lp_token_supply: u128,
    swap_token_0_amount: u128,
    swap_token_1_amount: u128,
    round_direction: RoundDirection,
) -> Option<TradingTokenResult> {
    let slack = match round_direction {
        RoundDirection::Floor => 0,
        RoundDirection::Ceiling => lp_token_supply - 1,
    };
    if lp_token_supply == 0 || lp_token_amount * swap_token_0_amount + slack > u128::MAX || lp_token_amount
        * swap_token_1_amount + slack > u128::MAX {
        None
    } else {
        Some(
            TradingTokenResult {
                token_0_amount: proportional_share(
                    lp_token_amount as int,
                    lp_token_supply as int,
                    swap_token_0_amount as int,
                    round_direction,
                ) as u128,
                token_1_amount: proportional_share(
                    lp_token_amount as int,
                    lp_token_supply as int,
                    swap_token_1_amount as int,
                    round_direction,
                ) as u128,
            },
        )
    }
}

/// The curve on which the product of the two balances is constant.
pub struct ConstantProductCurve {}

impl ConstantProductCurve {
    /// What `source_amount`, fees taken off already, buys from a pool with
    /// the balances `swap_source_amount` and `swap_destination_amount`.
    ///
    /// The output is rounded down, in favour of the pool. A product or a sum
    /// without room, and an empty pool that is given nothing, are
    /// `MathOverflow`.
    pub fn swap_base_input_without_fees(
        source_amount: u128,
        swap_source_amount: u128,
        swap_destination_amount: u128,
    ) -> (r: Result<u128, GammaError>)
        ensures
            r == swap_base_input_without_fees_spec(source_amount, swap_source_amount, swap_destination_amount),
            r.is_ok() ==> r.unwrap() <= swap_destination_amount,
    {
        let numerator = match source_amount.checked_mul(swap_destination_amount) {
            Some(v) => v,
            None => { return Err(GammaError::MathOverflow); },
        };
        let denominator = match swap_source_amount.checked_add(source_amount) {
            Some(v) => v,
            None => { return Err(GammaError::MathOverflow); },
        };
        match numerator.checked_div(denominator) {
            Some(v) => {
                proof {
                    Self::lemma_output_is_reserve_less_quotient(
                        source_amount,
                        swap_source_amount,
                        swap_destination_amount,
                    );
                }
                Ok(v)
            },
            None => Err(GammaError::MathOverflow),
        }
    }

    /// What has to come in, before fees, for `destination_amount` to go out
    /// of a pool with the balances given.
    ///
    /// The input is rounded up, in favour of the pool. An output that is not
    /// below the balance it comes from, and a product without room, are
    /// `MathOverflow`.
    pub fn swap_base_output_without_fees(
        destination_amount: u128,
        swap_source_amount: u128,
        swap_destination_amount: u128,
    ) -> (r: Result<u128, GammaError>)
        ensures
            r == swap_base_output_without_fees_spec(
                destination_amount,
                swap_source_amount,
                swap_destination_amount,
            ),
    {
        let numerator = match swap_source_amount.checked_mul(destination_amount) {
            Some(v) => v,
            None => { return Err(GammaError::MathOverflow); },
        };
        let denominator = match swap_destination_amount.checked_sub(destination_amount) {
            Some(v) => v,
            None => { return Err(GammaError::MathOverflow); },
        };
        if denominator == 0 {
            return Err(GammaError::MathOverflow);
        }
        let raised = match numerator.checked_add(denominator) {
            Some(v) => v,
            None => { return Err(GammaError::MathOverflow); },
        };
        Ok((raised - 1) / denominator)
    }

    /// The amounts of the two tokens that `lp_token_amount` out of
    /// `lp_token_supply` liquidity tokens stands for, each rounded as
    /// `round_direction` says. Nothing where the supply is zero or a product
    /// has no room.
    pub fn lp_tokens_to_trading_tokens(
        lp_token_amount: u128,
        lp_token_supply: u128,
        swap_token_0_amount: u128,
        swap_token_1_amount: u128,
        round_direction: RoundDirection,
    ) -> (r: Option<TradingTokenResult>)
        ensures
            r == lp_tokens_to_trading_tokens_spec(
                lp_token_amount,
                lp_token_supply,
                swap_token_0_amount,
                swap_token_1_amount,
                round_direction,
            ),
    {
        if lp_token_supply == 0 {
            return None;
        }
        let slack: u128 = match round_direction {
            RoundDirection::Floor => 0,
            RoundDirection::Ceiling => lp_token_supply - 1,
        };
        let product_0 = lp_token_amount.checked_mul(swap_token_0_amount)?;
        let raised_0 = product_0.checked_add(slack)?;
        let product_1 = lp_token_amount.checked_mul(swap_token_1_amount)?;
        let raised_1 = product_1.checked_add(slack)?;
        Some(
            TradingTokenResult {
                token_0_amount: raised_0 / lp_token_supply,
                token_1_amount: raised_1 / lp_token_supply,
            },
        )
    }

    /// The output of a swap is what the balance it comes from loses when the
    /// product of the balances is kept and the new balance is rounded up:
    /// `y - ceil(x * y / (x + source))`. So it is never more than that
    /// balance.
    pub proof fn lemma_output_is_reserve_less_quotient(
        source_amount: u128,
        swap_source_amount: u128,
        swap_destination_amount: u128,
    )
        requires
            swap_source_amount + source_amount > 0,
        ensures
            output_for_input(source_amount as int, swap_source_amount as int, swap_destination_amount as int)
                == swap_destination_amount - (swap_source_amount * swap_destination_amount + (
            swap_source_amount + source_amount) - 1) / (swap_source_amount + source_amount),
            0 <= output_for_input(
                source_amount as int,
                swap_source_amount as int,
                swap_destination_amount as int,
            ) <= swap_destination_amount,
    {
        let a = source_amount as int;
        let x = swap_source_amount as int;
        let y = swap_destination_amount as int;
        let s = x + a;
        let out = (a * y) / s;
        let kept = (x * y + s - 1) / s;
        assert(out * s <= a * y && a * y < (out + 1) * s && out >= 0) by (nonlinear_arith)
            requires
                out == (a * y) / s,
                s > 0,
                a >= 0,
                y >= 0,
        ;
        assert(kept * s >= x * y && (kept - 1) * s < x * y) by (nonlinear_arith)
            requires
                kept == (x * y + s - 1) / s,
                s > 0,
                x >= 0,
                y >= 0,
        ;
        assert(out == y - kept) by (nonlinear_arith)
            requires
                out * s <= a * y,
                a * y < (out + 1) * s,
                kept * s >= x * y,
                (kept - 1) * s < x * y,
                s == x + a,
                s > 0,
        ;
        assert(out <= y) by (nonlinear_arith)
            requires
                out * s <= a * y,
                s == x + a,
                x >= 0,
                a >= 0,
                y >= 0,
                out >= 0,
                s > 0,
        ;
    }
}

} // verus!
