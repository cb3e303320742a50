use crate::error::GammaError;
use crate::fees::{ceil_div, ceil_div_value, FEE_RATE_DENOMINATOR_VALUE};
use crate::states::oracle::{Observation, ObservationState, OBSERVATION_NUM};
use crate::states::pool::PoolState;
use crate::utils::decimal::Dec;
use vstd::prelude::*;

verus! {

/// The cap of the fee that rises by one hundredth of the price range.
pub const MAX_FEE_VOLATILITY: u64 = 10000;

/// The seconds of price history that the volatility is measured on.
pub const VOLATILITY_WINDOW: u64 = 3600;

/// The rates of the rebalancing fee schedule: the least,
pub const MIN_FEE_REBALANCE: u64 = 10_000;

/// the highest,
pub const MAX_FEE_REBALANCE: u64 = 100_000;

/// the middle one,
pub const MID_FEE_REBALANCE: u64 = 26_000;

/// and the one for trades that leave the range.
pub const OUT_FEE_REBALANCE: u64 = 50_000;

/// No dynamic fee rate is above a tenth of the trade.
pub const MAX_FEE: u64 = 100000;

/// The parts of the fee denominator charged for a volatility of one.
pub const VOLATILITY_FACTOR: u64 = 30_000;

/// The measure that the dynamic fee goes by.
#[derive(Clone, Copy, Debug, PartialEq, Eq, Structural)]
pub enum FeeType {
    Volatility,
}

/// The price that held between two observations that follow each other in the
/// ring, and for how many seconds.
#[derive(Clone, Copy, Debug, PartialEq, Eq, Structural)]
pub struct PriceInterval {
    pub price: u128,
    pub time_delta: u64,
}

/// The seconds from `earlier` to `later`, zero where `later` is not later.
pub open spec fn elapsed(later: u64, earlier: u64) -> int {
    if later > earlier {
        later - earlier
    } else {
        0
    }
}

/// Whether an observation counts at `current_time`: it was written, its
/// accumulator has moved, and it is no older than `window` seconds.
pub open spec fn in_window(observation: Observation, current_time: u64, window: u64) -> bool {
    &&& observation.block_timestamp != 0
    &&& observation.cumulative_token_0_price_x32 != 0
    &&& elapsed(current_time, observation.block_timestamp) <= window
}

/// The observations that count, in the order of their slots.
pub open spec fn window_observations(observations: Seq<Observation>, current_time: u64, window: u64) -> Seq<Observation> {
    observations.filter(|o: Observation| in_window(o, current_time, window))
}

/// Whether the accumulator falls over a step of positive duration, so that no
/// price can be read from it.
pub open spec fn step_fails(w: Seq<Observation>, i: int) -> bool {
    &&& elapsed(w[i + 1].block_timestamp, w[i].block_timestamp) > 0
    &&& w[i + 1].cumulative_token_0_price_x32 < w[i].cumulative_token_0_price_x32
}

/// The intervals of the first `n` steps of `w`; a step of no duration gives
/// none.
pub open spec fn intervals_of(w: Seq<Observation>, n: nat) -> Seq<PriceInterval>
    decreases n,
{
    if n == 0 {
        Seq::empty()
    } else {
        let before = intervals_of(w, (n - 1) as nat);
        let dt = elapsed(w[n as int].block_timestamp, w[n - 1].block_timestamp);
        if dt == 0 {
            before
        } else {
            before.push(
                PriceInterval {
                    price: ((w[n as int].cumulative_token_0_price_x32 - w[n
                        - 1].cumulative_token_0_price_x32) / dt) as u128,
                    time_delta: dt as u64,
                },
            )
        }
    }
}

/// The intervals that the observations in the window give: none with fewer
/// than two observations, and `MathOverflow` where a step fails.
pub open spec fn window_intervals_spec(observations: Seq<Observation>, current_time: u64, window: u64) -> Result<
    Seq<PriceInterval>,
    GammaError,
> {
    let w = window_observations(observations, current_time, window);
    if w.len() < 2 {
        Ok(Seq::empty())
    } else if exists|i: int| 0 <= i < w.len() - 1 && #[trigger] step_fails(w, i) {
        Err(GammaError::MathOverflow)
    } else {
        Ok(intervals_of(w, (w.len() - 1) as nat))
    }
}

/// The lowest price of the intervals, and the largest number where there is
/// none.
pub open spec fn min_price(intervals: Seq<PriceInterval>) -> u128
    decreases intervals.len(),
{
    if intervals.len() == 0 {
        u128::MAX
    } else {
        let rest = min_price(intervals.drop_last());
        if intervals.last().price < rest {
            intervals.last().price
        } else {
            rest
        }
    }
}

/// The highest price of the intervals, and zero where there is none.
pub open spec fn max_price(intervals: Seq<PriceInterval>) -> u128
    decreases intervals.len(),
{
    if intervals.len() == 0 {
        0
    } else {
        let rest = max_price(intervals.drop_last());
        if intervals.last().price > rest {
            intervals.last().price
        } else {
            rest
        }
    }
}

/// `a * b`, held at the largest 64-bit number.
pub open spec fn saturating_product(a: u64, b: u64) -> int {
    if a * b > u64::MAX {
        u64::MAX as int
    } else {
        a * b
    }
}

/// `a * b`, held at the largest 64-bit number.
pub fn saturating_mul(a: u64, b: u64) -> (product: u64)
    ensures
        product == saturating_product(a, b),
{
    match a.checked_mul(b) {
        Some(product) => product,
        None => u64::MAX,
    }
}

/// The surcharge for a volatility of `scaled_volatility` parts of the fee
/// denominator, before its cap.
pub open spec fn volatility_component(scaled_volatility: u64) -> int {
    saturating_product(VOLATILITY_FACTOR, scaled_volatility) / (FEE_RATE_DENOMINATOR_VALUE as int)
}

/// The fee rate for a measured volatility: the base fee and the volatility
/// surcharge, the surcharge held at what the base fee leaves below
/// [`MAX_FEE`]. A base fee above [`MAX_FEE`] leaves nothing: that is
/// `MathOverflow`.
pub open spec fn fee_rate_for_volatility(scaled_volatility: u64, base_fees: u64) -> Result<u64, GammaError> {
    if base_fees > MAX_FEE {
        Err(GammaError::MathOverflow)
    } else {
        let room = MAX_FEE - base_fees;
        let surcharge = if volatility_component(scaled_volatility) < room {
            volatility_component(scaled_volatility)
        } else {
            room
        };
        Ok((base_fees + surcharge) as u64)
    }
}

/// The amount before the fee that leaves `post_fee_amount` after a fee of
/// `rate` parts of the denominator, rounded up.
pub open spec fn pre_fee_value(post_fee_amount: int, rate: int) -> int {
    let d = FEE_RATE_DENOMINATOR_VALUE as int;
    (post_fee_amount * d + (d - rate) - 1) / (d - rate)
}

/// What [`DynamicFee::pre_fee_amount_at_rate`] gives.
pub open spec fn pre_fee_amount_spec(post_fee_amount: u128, rate: u64) -> Result<u128, GammaError> {
    let d = FEE_RATE_DENOMINATOR_VALUE as int;
    if rate == 0 {
        Ok(post_fee_amount)
    } else if rate >= d || post_fee_amount * d + (d - rate) > u128::MAX {
        Err(GammaError::MathOverflow)
    } else {
        Ok(pre_fee_value(post_fee_amount as int, rate as int) as u128)
    }
}

/// What [`DynamicFee::fee_at_rate`] gives.
pub open spec fn fee_amount_spec(amount: u128, rate: u64) -> Result<u128, GammaError> {
    let d = FEE_RATE_DENOMINATOR_VALUE as int;
    if amount * rate + d > u128::MAX {
        Err(GammaError::MathOverflow)
    } else {
        Ok(ceil_div_value(amount as int, rate as int, d) as u128)
    }
}

/// The fee rate held at [`MAX_FEE_VOLATILITY`].
pub open spec fn held_at_volatility_cap(fee: int) -> u64 {
    if fee < MAX_FEE_VOLATILITY {
        fee as u64
    } else {
        MAX_FEE_VOLATILITY
    }
}

/// The fee rate that rises by one hundredth of the relative price range:
/// the base fee where a price of the range is zero, which is where the
/// window gave no signal, and never more than [`MAX_FEE_VOLATILITY`].
pub open spec fn range_fee_spec(range: (u128, u128, u128), base_fees: u64) -> Result<u64, GammaError> {
    let low = if range.1 > range.0 {
        range.0
    } else {
        range.1
    };
    let high = if range.1 > range.0 {
        range.1
    } else {
        range.0
    };
    if range.0 == 0 || range.1 == 0 || range.2 == 0 {
        Ok(held_at_volatility_cap(base_fees as int))
    } else if ((high - low) / (low as int)) * FEE_RATE_DENOMINATOR_VALUE > u128::MAX {
        Err(GammaError::MathOverflow)
    } else {
        let volatility = ((high - low) / (low as int)) * FEE_RATE_DENOMINATOR_VALUE;
        let fee = volatility / 100 + base_fees;
        if fee > u128::MAX {
            Err(GammaError::MathOverflow)
        } else {
            Ok(held_at_volatility_cap(fee))
        }
    }
}

/// The sums so far with one more interval: the price times its seconds is
/// added to the first, its seconds to the second. Nothing where the price
/// has more than 96 bits or the decimal arithmetic overflows.
pub open spec fn interval_added(weighted: Dec, weight: Dec, interval: PriceInterval) -> Option<(Dec, Dec)> {
    let seconds = Dec { mantissa: interval.time_delta as i128, scale: 0 };
    match Dec::spec_from_u128(interval.price) {
        None => None,
        Some(price) => match price.spec_checked_mul(&seconds) {
            None => None,
            Some(product) => match weighted.spec_checked_add(&product) {
                None => None,
                Some(new_weighted) => match weight.spec_checked_add(&seconds) {
                    None => None,
                    Some(new_weight) => Some((new_weighted, new_weight)),
                },
            },
        },
    }
}

/// The sum of price times seconds and the sum of seconds over the first `n`
/// intervals, in decimal arithmetic.
pub open spec fn weighted_sums(intervals: Seq<PriceInterval>, n: nat) -> Option<(Dec, Dec)>
    decreases n,
{
    if n == 0 {
        Some((Dec::spec_zero(), Dec::spec_zero()))
    } else {
        match weighted_sums(intervals, (n - 1) as nat) {
            None => None,
            Some((weighted, weight)) => interval_added(weighted, weight, intervals[n - 1]),
        }
    }
}

/// The time-weighted average price of the intervals, rounded down: nothing
/// where the intervals have no weight, `MathOverflow` where the decimal
/// arithmetic fails.
pub open spec fn twap_spec(intervals: Seq<PriceInterval>) -> Result<Option<u128>, GammaError> {
    match weighted_sums(intervals, intervals.len()) {
        None => Err(GammaError::MathOverflow),
        Some((weighted, weight)) => if weight.mantissa == 0 {
            Ok(None)
        } else {
            match weighted.spec_checked_div(&weight) {
                None => Err(GammaError::MathOverflow),
                Some(quotient) => match quotient.spec_to_u128() {
                    None => Err(GammaError::MathOverflow),
                    Some(twap) => Ok(Some(twap)),
                },
            }
        },
    }
}

/// The lowest, the highest and the time-weighted average price of the
/// intervals; three zeros where the intervals have no weight.
pub open spec fn price_range_of(intervals: Seq<PriceInterval>) -> Result<(u128, u128, u128), GammaError> {
    match twap_spec(intervals) {
        Err(e) => Err(e),
        Ok(None) => Ok((0u128, 0u128, 0u128)),
        Ok(Some(twap)) => Ok((min_price(intervals), max_price(intervals), twap)),
    }
}

/// What [`DynamicFee::get_price_range`] gives.
pub open spec fn price_range_spec(observations: Seq<Observation>, current_time: u64, window: u64) -> Result<
    (u128, u128, u128),
    GammaError,
> {
    match window_intervals_spec(observations, current_time, window) {
        Err(e) => Err(e),
        Ok(intervals) => price_range_of(intervals),
    }
}

/// The natural logarithm of a price, in decimal arithmetic.
pub open spec fn ln_of(price: u128) -> Option<Dec> {
    match Dec::spec_from_u128(price) {
        None => None,
        Some(d) => d.spec_checked_ln(),
    }
}

/// The volatility `|ln(max) - ln(min)| / |ln(twap)|` in parts of the fee
/// denominator, rounded down: nothing where `ln(twap)` is zero,
/// `MathOverflow` where the decimal arithmetic fails.
pub open spec fn scaled_volatility_spec(low: u128, high: u128, twap: u128) -> Result<Option<u64>, GammaError> {
    let scale = Dec { mantissa: FEE_RATE_DENOMINATOR_VALUE as i128, scale: 0 };
    match (ln_of(high), ln_of(low), ln_of(twap)) {
        (Some(ln_high), Some(ln_low), Some(ln_twap)) => match ln_high.spec_checked_sub(&ln_low) {
            None => Err(GammaError::MathOverflow),
            Some(spread) => if ln_twap.mantissa == 0 {
                Ok(None)
            } else {
                match spread.spec_abs().spec_checked_div(&ln_twap.spec_abs()) {
                    None => Err(GammaError::MathOverflow),
                    Some(volatility) => match volatility.spec_checked_mul(&scale) {
                        None => Err(GammaError::MathOverflow),
                        Some(scaled) => match scaled.spec_to_u64() {
                            None => Err(GammaError::MathOverflow),
                            Some(v) => Ok(Some(v)),
                        },
                    },
                }
            },
        },
        _ => Err(GammaError::MathOverflow),
    }
}

/// The fee rate for a price range: the base fee where a price is zero or the
/// volatility has no measure, else the rate for the volatility measured.
pub open spec fn fee_rate_for_range(range: (u128, u128, u128), base_fees: u64) -> Result<u64, GammaError> {
    if range.0 == 0 || range.1 == 0 || range.2 == 0 {
        Ok(base_fees)
    } else {
        match scaled_volatility_spec(range.0, range.1, range.2) {
            Err(e) => Err(e),
            Ok(None) => Ok(base_fees),
            Ok(Some(v)) => fee_rate_for_volatility(v, base_fees),
        }
    }
}

/// What [`DynamicFee::calculate_volatile_fee`] gives.
pub open spec fn volatile_fee_spec(observations: Seq<Observation>, block_timestamp: u64, base_fees: u64) -> Result<
    u64,
    GammaError,
> {
    match price_range_spec(observations, block_timestamp, VOLATILITY_WINDOW) {
        Err(e) => Err(e),
        Ok(range) => fee_rate_for_range(range, base_fees),
    }
}

/// What [`DynamicFee::calculate_volatility_fee`] gives.
pub open spec fn volatility_fee_spec(observations: Seq<Observation>, block_timestamp: u64, base_fees: u64) -> Result<
    u64,
    GammaError,
> {
    match price_range_spec(observations, block_timestamp, VOLATILITY_WINDOW) {
        Err(e) => Err(e),
        Ok(range) => range_fee_spec(range, base_fees),
    }
}

/// What [`DynamicFee::dynamic_fee_rate`] gives for a pool.
pub open spec fn dynamic_fee_rate_spec(observations: Seq<Observation>, block_timestamp: u64, base_fees: u64) -> Result<
    u64,
    GammaError,
> {
    volatile_fee_spec(observations, block_timestamp, base_fees)
}

/// The fee that follows what the price did of late.
pub struct DynamicFee {}

impl DynamicFee {
    /// The fee on `amount` at `rate` parts of the denominator, rounded up so
    /// that the pool is never paid too little; `MathOverflow` where
    /// `amount * rate` plus the denominator has no room.
    pub fn fee_at_rate(amount: u128, rate: u64) -> (fee: Result<u128, GammaError>)
        ensures
            fee == fee_amount_spec(amount, rate),
    {
        match ceil_div(amount, rate as u128, FEE_RATE_DENOMINATOR_VALUE as u128) {
            Some(fee) => Ok(fee),
            None => Err(GammaError::MathOverflow),
        }
    }

    /// The amount from which a fee of `rate` parts of the denominator leaves
    /// `post_fee_amount`.
    ///
    /// A rate of zero leaves the amount as it is. A rate of the whole
    /// denominator or more has no such amount, and a product without room
    /// none either: both are `MathOverflow`.
    pub fn pre_fee_amount_at_rate(post_fee_amount: u128, rate: u64) -> (amount: Result<u128, GammaError>)
        ensures
            amount == pre_fee_amount_spec(post_fee_amount, rate),
    {
        if rate == 0 {
            return Ok(post_fee_amount);
        }
        let numerator = match post_fee_amount.checked_mul(FEE_RATE_DENOMINATOR_VALUE as u128) {
            Some(v) => v,
            None => { return Err(GammaError::MathOverflow); },
        };
        let denominator = match (FEE_RATE_DENOMINATOR_VALUE as u128).checked_sub(rate as u128) {
            Some(v) => v,
            None => { return Err(GammaError::MathOverflow); },
        };
        let raised = match numerator.checked_add(denominator) {
            Some(v) => v,
            None => { return Err(GammaError::MathOverflow); },
        };
        let lowered = match raised.checked_sub(1) {
            Some(v) => v,
            None => { return Err(GammaError::MathOverflow); },
        };
        match lowered.checked_div(denominator) {
            Some(v) => Ok(v),
            None => Err(GammaError::MathOverflow),
        }
    }

    /// The fee rate for a volatility that was measured as `scaled_volatility`
    /// parts of the fee denominator: the base fee and [`VOLATILITY_FACTOR`]
    /// times the volatility, the surcharge held at what the base fee leaves
    /// below [`MAX_FEE`].
    pub fn fee_rate_from_volatility(scaled_volatility: u64, base_fees: u64) -> (rate: Result<u64, GammaError>)
        ensures
            rate == fee_rate_for_volatility(scaled_volatility, base_fees),
            rate.is_ok() ==> base_fees <= rate.unwrap() <= MAX_FEE,
            scaled_volatility == 0 && base_fees <= MAX_FEE ==> rate == Ok::<u64, GammaError>(base_fees),
    {
        let calculated = saturating_mul(VOLATILITY_FACTOR, scaled_volatility) / FEE_RATE_DENOMINATOR_VALUE;
        let room = match MAX_FEE.checked_sub(base_fees) {
            Some(v) => v,
            None => { return Err(GammaError::MathOverflow); },
        };
        let surcharge = if calculated < room {
            calculated
        } else {
            room
        };
        match base_fees.checked_add(surcharge) {
            Some(v) => Ok(v),
            None => Err(GammaError::MathOverflow),
        }
    }

    /// The fee rate that rises with the relative distance between the
    /// lowest and the highest price of a range: the base fee and one
    /// hundredth of `(high - low) / low` in parts of the fee denominator,
    /// held at [`MAX_FEE_VOLATILITY`].
    ///
    /// A range with a price of zero carries no signal: the rate is then the
    /// base fee, held at the same cap.
    pub fn fee_rate_from_range(range: (u128, u128, u128), base_fees: u64) -> (rate: Result<u64, GammaError>)
        ensures
            rate == range_fee_spec(range, base_fees),
            rate.is_ok() ==> rate.unwrap() <= MAX_FEE_VOLATILITY,
    {
        if range.0 == 0 || range.1 == 0 || range.2 == 0 {
            return Ok(
                if base_fees < MAX_FEE_VOLATILITY {
                    base_fees
                } else {
                    MAX_FEE_VOLATILITY
                },
            );
        }
        let (low, high) = if range.1 > range.0 {
            (range.0, range.1)
        } else {
            (range.1, range.0)
        };
        let relative = (high - low) / low;
        let volatility = match relative.checked_mul(FEE_RATE_DENOMINATOR_VALUE as u128) {
            Some(v) => v,
            None => { return Err(GammaError::MathOverflow); },
        };
        let fee = match (volatility / 100).checked_add(base_fees as u128) {
            Some(v) => v,
            None => { return Err(GammaError::MathOverflow); },
        };
        if fee < MAX_FEE_VOLATILITY as u128 {
            Ok(fee as u64)
        } else {
            Ok(MAX_FEE_VOLATILITY)
        }
    }

    /// The observations of the ring that count at `current_time`, in the
    /// order of their slots.
    pub fn observations_in_window(observation_state: &ObservationState, current_time: u64, window: u64) -> (w: Vec<
        Observation,
    >)
        ensures
            w@ == window_observations(observation_state.observations@, current_time, window),
    {
        let ghost pred = |o: Observation| in_window(o, current_time, window);
        let mut w: Vec<Observation> = Vec::new();
        let mut i: usize = 0;
        proof {
            reveal(Seq::filter);
            assert(observation_state.observations@.take(0) =~= Seq::<Observation>::empty());
        }
        while i < OBSERVATION_NUM
            invariant
                i <= OBSERVATION_NUM,
                observation_state.observations@.len() == OBSERVATION_NUM,
                pred == (|o: Observation| in_window(o, current_time, window)),
                w@ == observation_state.observations@.take(i as int).filter(pred),
            decreases OBSERVATION_NUM - i,
        {
            let o = observation_state.observations[i];
            proof {
                let all = observation_state.observations@;
                assert(all.take(i + 1) =~= all.take(i as int).push(o));
                all.take(i as int).lemma_filter_push(o, pred);
            }
            if o.block_timestamp != 0 && o.cumulative_token_0_price_x32 != 0 && current_time.saturating_sub(
                o.block_timestamp,
            ) <= window {
                w.push(o);
            }
            i += 1;
        }
        proof {
            let all = observation_state.observations@;
            assert(all.take(OBSERVATION_NUM as int) =~= all);
        }
        w
    }

    /// The price of each step between observations in the window that follow
    /// each other, with its duration.
    ///
    /// With fewer than two observations in the window there is no interval.
    /// A step of no duration gives none. A step over which the accumulator
    /// falls is `MathOverflow`.
    pub fn window_intervals(observation_state: &ObservationState, current_time: u64, window: u64) -> (r: Result<
        Vec<PriceInterval>,
        GammaError,
    >)
        ensures
            match window_intervals_spec(observation_state.observations@, current_time, window) {
                Ok(intervals) => r.is_ok() && r.unwrap()@ == intervals,
                Err(e) => r.is_err() && r.unwrap_err() == e,
            },
    {
        let w = Self::observations_in_window(observation_state, current_time, window);
        let mut intervals: Vec<PriceInterval> = Vec::new();
        if w.len() < 2 {
            return Ok(intervals);
        }
        let mut i: usize = 0;
        while i < w.len() - 1
            invariant
                w.len() >= 2,
                i <= w.len() - 1,
                w@ == window_observations(observation_state.observations@, current_time, window),
                intervals@ == intervals_of(w@, i as nat),
                forall|j: int| 0 <= j < i ==> !step_fails(w@, j),
            decreases w.len() - i,
        {
            let earlier = w[i];
            let later = w[i + 1];
            let time_delta = later.block_timestamp.saturating_sub(earlier.block_timestamp);
            if time_delta != 0 {
                let moved = match later.cumulative_token_0_price_x32.checked_sub(
                    earlier.cumulative_token_0_price_x32,
                ) {
                    Some(v) => v,
                    None => {
                        assert(0 <= i < w@.len() - 1 && step_fails(w@, i as int));
                        assert(exists|j: int| 0 <= j < w@.len() - 1 && #[trigger] step_fails(w@, j));
                        return Err(GammaError::MathOverflow);
                    },
                };
                intervals.push(PriceInterval { price: moved / (time_delta as u128), time_delta });
            }
            i += 1;
        }
        Ok(intervals)
    }

    /// The lowest and the highest price of the intervals.
    pub fn price_extremes(intervals: &Vec<PriceInterval>) -> (extremes: (u128, u128))
        ensures
            extremes.0 == min_price(intervals@),
            extremes.1 == max_price(intervals@),
    {
        let mut low: u128 = u128::MAX;
        let mut high: u128 = 0;
        let mut i: usize = 0;
        proof {
            assert(intervals@.take(0) =~= Seq::<PriceInterval>::empty());
        }
        while i < intervals.len()
            invariant
                i <= intervals.len(),
                low == min_price(intervals@.take(i as int)),
                high == max_price(intervals@.take(i as int)),
            decreases intervals.len() - i,
        {
            let price = intervals[i].price;
            proof {
                assert(intervals@.take(i + 1).drop_last() =~= intervals@.take(i as int));
            }
            if price < low {
                low = price;
            }
            if price > high {
                high = price;
            }
            i += 1;
        }
        proof {
            assert(intervals@.take(intervals.len() as int) =~= intervals@);
        }
        (low, high)
    }

    /// The time-weighted average price of the intervals, in the decimal
    /// arithmetic of `rust_decimal`.
    pub fn twap(intervals: &Vec<PriceInterval>) -> (r: Result<Option<u128>, GammaError>)
        ensures
            r == twap_spec(intervals@),
    {
        let mut weighted = Dec::zero();
        let mut weight = Dec::zero();
        let mut i: usize = 0;
        while i < intervals.len()
            invariant
                i <= intervals.len(),
                weighted.wf(),
                weight.wf(),
                weighted_sums(intervals@, i as nat) == Some((weighted, weight)),
            ensures
                i == intervals.len(),
            decreases intervals.len() - i,
        {
            let interval = intervals[i];
            proof {
                // Once a step has no sum, no later step has one.
                if interval_added(weighted, weight, interval).is_none() {
                    Self::lemma_sums_stay_missing(intervals@, (i + 1) as nat, intervals@.len());
                }
            }
            let price = match Dec::from_u128(interval.price) {
                Some(d) => d,
                None => { return Err(GammaError::MathOverflow); },
            };
            let seconds = Dec { mantissa: interval.time_delta as i128, scale: 0 };
            let product = match price.checked_mul(&seconds) {
                Some(d) => d,
                None => { return Err(GammaError::MathOverflow); },
            };
            weighted = match weighted.checked_add(&product) {
                Some(d) => d,
                None => { return Err(GammaError::MathOverflow); },
            };
            weight = match weight.checked_add(&seconds) {
                Some(d) => d,
                None => { return Err(GammaError::MathOverflow); },
            };
            i += 1;
        }
        if weight.is_zero() {
            return Ok(None);
        }
        let quotient = match weighted.checked_div(&weight) {
            Some(d) => d,
            None => { return Err(GammaError::MathOverflow); },
        };
        match quotient.to_u128() {
            Some(twap) => Ok(Some(twap)),
            None => Err(GammaError::MathOverflow),
        }
    }

    /// Where the first `n` intervals have no sums, no longer run has any.
    proof fn lemma_sums_stay_missing(intervals: Seq<PriceInterval>, n: nat, m: nat)
        requires
            n <= m,
            weighted_sums(intervals, n).is_none(),
        ensures
            weighted_sums(intervals, m).is_none(),
        decreases m,
    {
        if n < m {
            Self::lemma_sums_stay_missing(intervals, n, (m - 1) as nat);
        }
    }

    /// The volatility of a price range in parts of the fee denominator, in
    /// the decimal arithmetic of `rust_decimal`.
    pub fn scaled_volatility(low: u128, high: u128, twap: u128) -> (r: Result<Option<u64>, GammaError>)
        ensures
            r == scaled_volatility_spec(low, high, twap),
            low == high && r.is_ok() && r.unwrap().is_some() ==> r.unwrap() == Some(0u64),
    {
        let high_decimal = match Dec::from_u128(high) {
            Some(d) => d,
            None => { return Err(GammaError::MathOverflow); },
        };
        let low_decimal = match Dec::from_u128(low) {
            Some(d) => d,
            None => { return Err(GammaError::MathOverflow); },
        };
        let twap_decimal = match Dec::from_u128(twap) {
            Some(d) => d,
            None => { return Err(GammaError::MathOverflow); },
        };
        let ln_high = match high_decimal.checked_ln() {
            Some(d) => d,
            None => { return Err(GammaError::MathOverflow); },
        };
        let ln_low = match low_decimal.checked_ln() {
            Some(d) => d,
            None => { return Err(GammaError::MathOverflow); },
        };
        let ln_twap = match twap_decimal.checked_ln() {
            Some(d) => d,
            None => { return Err(GammaError::MathOverflow); },
        };
        let spread = match ln_high.checked_sub(&ln_low) {
            Some(d) => d,
            None => { return Err(GammaError::MathOverflow); },
        };
        let numerator = spread.abs();
        let denominator = ln_twap.abs();
        if denominator.is_zero() {
            return Ok(None);
        }
        let volatility = match numerator.checked_div(&denominator) {
            Some(d) => d,
            None => { return Err(GammaError::MathOverflow); },
        };
        let scale = match Dec::from_u64(FEE_RATE_DENOMINATOR_VALUE) {
            Some(d) => d,
            None => { return Err(GammaError::MathOverflow); },
        };
        let scaled = match volatility.checked_mul(&scale) {
            Some(d) => d,
            None => { return Err(GammaError::MathOverflow); },
        };
        proof {
            if low == high {
                // No spread: the quotient, the product and its whole part are zero.
                assert(spread.mantissa == 0);
                assert(scaled == Dec { mantissa: 0, scale: 0 });
                assert(vstd::arithmetic::power::pow(10, 0) == 1) by {
                    vstd::arithmetic::power::lemma_pow0(10);
                }
                assert(scaled.whole_part() == 0);
            }
        }
        match scaled.to_u64() {
            Some(v) => Ok(Some(v)),
            None => Err(GammaError::MathOverflow),
        }
    }

    /// The lowest, the highest and the time-weighted average price over the
    /// observations of the last `window` seconds.
    ///
    /// The three are zero where fewer than two observations lie in the
    /// window or no time passes between them.
    pub fn get_price_range(observation_state: &ObservationState, current_time: u64, window: u64) -> (r: Result<
        (u128, u128, u128),
        GammaError,
    >)
        ensures
            r == price_range_spec(observation_state.observations@, current_time, window),
    {
        let intervals = match Self::window_intervals(observation_state, current_time, window) {
            Ok(v) => v,
            Err(e) => { return Err(e); },
        };
        let twap = match Self::twap(&intervals) {
            Ok(Some(v)) => v,
            Ok(None) => { return Ok((0, 0, 0)); },
            Err(e) => { return Err(e); },
        };
        let (low, high) = Self::price_extremes(&intervals);
        Ok((low, high, twap))
    }

    /// The fee rate for a price range that was measured: see
    /// [`fee_rate_for_range`].
    pub fn fee_rate_from_price_range(range: (u128, u128, u128), base_fees: u64) -> (rate: Result<u64, GammaError>)
        ensures
            rate == fee_rate_for_range(range, base_fees),
            base_fees <= MAX_FEE && rate.is_ok() ==> rate.unwrap() <= MAX_FEE,
            range.0 == range.1 && base_fees <= MAX_FEE && rate.is_ok() ==> rate == Ok::<u64, GammaError>(
                base_fees,
            ),
    {
        let (low, high, twap) = range;
        if low == 0 || high == 0 || twap == 0 {
            return Ok(base_fees);
        }
        match Self::scaled_volatility(low, high, twap) {
            Err(e) => Err(e),
            Ok(None) => Ok(base_fees),
            Ok(Some(v)) => Self::fee_rate_from_volatility(v, base_fees),
        }
    }

    /// The trade fee rate at `block_timestamp`, in parts of the fee
    /// denominator.
    ///
    /// It is `base_fees` where the last hour of observations gives no price
    /// range or no volatility. Else it is `base_fees` and a surcharge of
    /// [`VOLATILITY_FACTOR`] times the volatility `|ln(max) - ln(min)| /
    /// |ln(twap)|` of the price of token 0 over that hour, the surcharge held
    /// at what the base fee leaves below [`MAX_FEE`]. The two balances do not
    /// enter the rate. Where the lowest and the highest price are the same,
    /// the rate is the base fee.
    pub fn calculate_volatile_fee(
        block_timestamp: u64,
        observation_state: &ObservationState,
        vault_0: u128,
        vault_1: u128,
        base_fees: u64,
    ) -> (rate: Result<u64, GammaError>)
        ensures
            rate == volatile_fee_spec(observation_state.observations@, block_timestamp, base_fees),
            base_fees <= MAX_FEE && rate.is_ok() ==> rate.unwrap() <= MAX_FEE,
            ({
                let range = price_range_spec(observation_state.observations@, block_timestamp, VOLATILITY_WINDOW);
                range.is_ok() && range.unwrap().0 == range.unwrap().1 && base_fees <= MAX_FEE && rate.is_ok()
            }) ==> rate == Ok::<u64, GammaError>(base_fees),
    {
        let range = match Self::get_price_range(observation_state, block_timestamp, VOLATILITY_WINDOW) {
            Ok(v) => v,
            Err(e) => { return Err(e); },
        };
        Self::fee_rate_from_price_range(range, base_fees)
    }

    /// The trade fee rate by the measure named.
    pub fn calculate_dynamic_fee(
        block_timestamp: u64,
        observation_state: &ObservationState,
        vault_0: u128,
        vault_1: u128,
        fee_type: FeeType,
        base_fees: u64,
    ) -> (rate: Result<u64, GammaError>)
        ensures
            rate == volatile_fee_spec(observation_state.observations@, block_timestamp, base_fees),
            base_fees <= MAX_FEE && rate.is_ok() ==> rate.unwrap() <= MAX_FEE,
    {
        match fee_type {
            FeeType::Volatility => Self::calculate_volatile_fee(
                block_timestamp,
                observation_state,
                vault_0,
                vault_1,
                base_fees,
            ),
        }
    }

    /// The fee rate that rises by one hundredth of the relative distance
    /// between the lowest and the highest price of the last hour, held at
    /// [`MAX_FEE_VOLATILITY`]. Where that hour gives no price range, the rate
    /// is the base fee, held at the same cap.
    pub fn calculate_volatility_fee(block_timestamp: u64, observation_state: &ObservationState, base_fees: u64) -> (rate: Result<
        u64,
        GammaError,
    >)
        ensures
            rate == volatility_fee_spec(observation_state.observations@, block_timestamp, base_fees),
            rate.is_ok() ==> rate.unwrap() <= MAX_FEE_VOLATILITY,
    {
        let range = match Self::get_price_range(observation_state, block_timestamp, VOLATILITY_WINDOW) {
            Ok(v) => v,
            Err(e) => { return Err(e); },
        };
        Self::fee_rate_from_range(range, base_fees)
    }

    /// The trade fee rate for a swap in `pool_state` at `block_timestamp`:
    /// the rate of [`DynamicFee::calculate_dynamic_fee`]. Neither the pool
    /// nor who calls changes the rate.
    pub fn dynamic_fee_rate(
        block_timestamp: u64,
        observation_state: &ObservationState,
        fee_type: FeeType,
        base_fees: u64,
        pool_state: &PoolState,
        is_invoked_by_signed_segmenter: bool,
    ) -> (rate: Result<u64, GammaError>)
        ensures
            rate == dynamic_fee_rate_spec(observation_state.observations@, block_timestamp, base_fees),
            base_fees <= MAX_FEE && rate.is_ok() ==> rate.unwrap() <= MAX_FEE,
    {
        let (vault_0, vault_1) = match pool_state.vault_amount_without_fee() {
            Ok(v) => v,
            Err(e) => { return Err(e); },
        };
        Self::calculate_dynamic_fee(
            block_timestamp,
            observation_state,
            vault_0 as u128,
            vault_1 as u128,
            fee_type,
            base_fees,
        )
    }

    /// The fee on `amount` at the rate of
    /// [`DynamicFee::calculate_dynamic_fee`], rounded up.
    pub fn dynamic_fee(
        amount: u128,
        block_timestamp: u64,
        observation_state: &ObservationState,
        vault_0: u128,
        vault_1: u128,
        fee_type: FeeType,
        base_fees: u64,
    ) -> (fee: Result<u128, GammaError>)
        ensures
            fee == match volatile_fee_spec(observation_state.observations@, block_timestamp, base_fees) {
                Err(e) => Err(e),
                Ok(rate) => fee_amount_spec(amount, rate),
            },
    {
        let rate = match Self::calculate_dynamic_fee(
            block_timestamp,
            observation_state,
            vault_0,
            vault_1,
            fee_type,
            base_fees,
        ) {
            Ok(v) => v,
            Err(e) => { return Err(e); },
        };
        Self::fee_at_rate(amount, rate)
    }

    /// The amount from which the fee at the rate of
    /// [`DynamicFee::calculate_dynamic_fee`] leaves `post_fee_amount`.
    pub fn calculate_pre_fee_amount(
        block_timestamp: u64,
        post_fee_amount: u128,
        observation_state: &ObservationState,
        vault_0: u128,
        vault_1: u128,
        fee_type: FeeType,
        base_fees: u64,
    ) -> (amount: Result<u128, GammaError>)
        ensures
            amount == match volatile_fee_spec(observation_state.observations@, block_timestamp, base_fees) {
                Err(e) => Err(e),
                Ok(rate) => pre_fee_amount_spec(post_fee_amount, rate),
            },
    {
        let rate = match Self::calculate_dynamic_fee(
            block_timestamp,
            observation_state,
            vault_0,
            vault_1,
            fee_type,
            base_fees,
        ) {
            Ok(v) => v,
            Err(e) => { return Err(e); },
        };
        Self::pre_fee_amount_at_rate(post_fee_amount, rate)
    }

    /// A fee taken at a rate below the whole and then added back is undone
    /// exactly: the amount that [`DynamicFee::pre_fee_amount_at_rate`] gives
    /// for `post_fee_amount`, less the fee that [`DynamicFee::fee_at_rate`]
    /// takes from it, is `post_fee_amount` again, wherever both are computed.
    pub proof fn lemma_fee_round_trip(post_fee_amount: u128, rate: u64)
        requires
            post_fee_amount > 0,
            0 < rate < FEE_RATE_DENOMINATOR_VALUE,
            pre_fee_amount_spec(post_fee_amount, rate).is_ok(),
            fee_amount_spec(pre_fee_amount_spec(post_fee_amount, rate).unwrap(), rate).is_ok(),
        ensures
            pre_fee_amount_spec(post_fee_amount, rate).unwrap() - fee_amount_spec(
                pre_fee_amount_spec(post_fee_amount, rate).unwrap(),
                rate,
            ).unwrap() == post_fee_amount,
    {
        let d = FEE_RATE_DENOMINATOR_VALUE as int;
        let y = post_fee_amount as int;
        let r = rate as int;
        let x = pre_fee_value(y, r);
        let q = d - r;
        // x is the least whole number with x * q >= y * d.
        assert(x * q >= y * d && (x - 1) * q < y * d && x >= 0) by (nonlinear_arith)
            requires
                x == (y * d + q - 1) / q,
                q > 0,
                y > 0,
                d > 0,
        ;
        assert(x <= y * d + q - 1) by (nonlinear_arith)
            requires
                x == (y * d + q - 1) / q,
                q >= 1,
                y * d + q - 1 >= 0,
        ;
        let fee = ceil_div_value(x, r, d);
        // fee is the least whole number with fee * d >= x * r.
        assert(x - fee == y) by (nonlinear_arith)
            requires
                fee == (x * r + d - 1) / d,
                x * q >= y * d,
                (x - 1) * q < y * d,
                q == d - r,
                0 < r < d,
                d > 0,
                x >= 0,
        ;
    }
}

} // verus!
