use rust_decimal::prelude::ToPrimitive;
use rust_decimal::Decimal;
use rust_decimal::MathematicalOps;
use vstd::arithmetic::power::pow;
use vstd::prelude::*;

verus! {

/// The largest magnitude that the 96-bit mantissa of a decimal number holds.
pub const MAX_MANTISSA: i128 = 0x0000_0000_FFFF_FFFF_FFFF_FFFF_FFFF_FFFF;

/// The largest number of fractional digits of a decimal number.
pub const MAX_SCALE: u32 = 28;

/// A decimal fixed-point number: the value is `mantissa / 10^scale`.
///
/// This is the plain form of a `rust_decimal::Decimal`, which does the
/// arithmetic: each of the checked operations, the logarithm and the two
/// conversions to whole numbers hands the two fields to that crate and takes
/// its answer back.
#[derive(Clone, Copy, Debug, PartialEq, Eq, Structural)]
pub struct Dec {
    pub mantissa: i128,
    pub scale: u32,
}

/// The sum that `Decimal::checked_add` gives for two numbers, each as
/// (mantissa, scale); `None` where it reports an overflow.
pub uninterp spec fn decimal_sum(a_mantissa: int, a_scale: nat, b_mantissa: int, b_scale: nat) -> Option<(int, nat)>;

/// The difference that `Decimal::checked_sub` gives.
pub uninterp spec fn decimal_difference(a_mantissa: int, a_scale: nat, b_mantissa: int, b_scale: nat) -> Option<(int, nat)>;

/// The product that `Decimal::checked_mul` gives.
pub uninterp spec fn decimal_product(a_mantissa: int, a_scale: nat, b_mantissa: int, b_scale: nat) -> Option<(int, nat)>;

/// The quotient that `Decimal::checked_div` gives; `None` where it reports an
/// overflow or a division by zero.
pub uninterp spec fn decimal_quotient(a_mantissa: int, a_scale: nat, b_mantissa: int, b_scale: nat) -> Option<(int, nat)>;

/// The natural logarithm that `MathematicalOps::checked_ln` gives; `None`
/// where it gives none.
pub uninterp spec fn decimal_ln(mantissa: int, scale: nat) -> Option<(int, nat)>;

impl Dec {
    /// The fields are those of a number that `rust_decimal` can hold.
    pub open spec fn wf(&self) -> bool {
        &&& -MAX_MANTISSA <= self.mantissa <= MAX_MANTISSA
        &&& self.scale <= MAX_SCALE
    }

    /// The number as a pair of mathematical integers.
    pub open spec fn parts(&self) -> (int, nat) {
        (self.mantissa as int, self.scale as nat)
    }

    /// The whole part of a number that is not negative.
    pub open spec fn whole_part(&self) -> int {
        self.mantissa as int / pow(10, self.scale as nat)
    }

    /// What an operation of the crate gave, as a number of this library.
    pub open spec fn answer(r: Option<Dec>, given: Option<(int, nat)>) -> bool {
        match r {
            Some(d) => d.wf() && given == Some(d.parts()),
            None => given.is_none(),
        }
    }

    /// The number that the crate gave as the pair `given`.
    pub open spec fn from_parts(given: Option<(int, nat)>) -> Option<Dec> {
        match given {
            Some((mantissa, scale)) => Some(Dec { mantissa: mantissa as i128, scale: scale as u32 }),
            None => None,
        }
    }

    /// A whole number as a decimal, where the mantissa holds it.
    pub open spec fn spec_from_u128(n: u128) -> Option<Dec> {
        if n <= MAX_MANTISSA {
            Some(Dec { mantissa: n as i128, scale: 0 })
        } else {
            None
        }
    }

    /// The sum of two numbers as the crate gives it.
    pub open spec fn spec_checked_add(&self, other: &Dec) -> Option<Dec> {
        Dec::from_parts(
            decimal_sum(self.mantissa as int, self.scale as nat, other.mantissa as int, other.scale as nat),
        )
    }

    /// The difference of two numbers as the crate gives it.
    pub open spec fn spec_checked_sub(&self, other: &Dec) -> Option<Dec> {
        Dec::from_parts(
            decimal_difference(
                self.mantissa as int,
                self.scale as nat,
                other.mantissa as int,
                other.scale as nat,
            ),
        )
    }

    /// The product of two numbers as the crate gives it.
    pub open spec fn spec_checked_mul(&self, other: &Dec) -> Option<Dec> {
        Dec::from_parts(
            decimal_product(
                self.mantissa as int,
                self.scale as nat,
                other.mantissa as int,
                other.scale as nat,
            ),
        )
    }

    /// The quotient of two numbers as the crate gives it.
    pub open spec fn spec_checked_div(&self, other: &Dec) -> Option<Dec> {
        Dec::from_parts(
            decimal_quotient(
                self.mantissa as int,
                self.scale as nat,
                other.mantissa as int,
                other.scale as nat,
            ),
        )
    }

    /// The natural logarithm of the number as the crate gives it.
    pub open spec fn spec_checked_ln(&self) -> Option<Dec> {
        Dec::from_parts(decimal_ln(self.mantissa as int, self.scale as nat))
    }

    /// The number without its sign.
    pub open spec fn spec_abs(&self) -> Dec {
        if self.mantissa < 0 {
            Dec { mantissa: (-self.mantissa) as i128, scale: self.scale }
        } else {
            *self
        }
    }

    /// The whole part of the number as a 64-bit number, where it is one.
    pub open spec fn spec_to_u64(&self) -> Option<u64> {
        if self.mantissa >= 0 && self.whole_part() <= u64::MAX {
            Some(self.whole_part() as u64)
        } else {
            None
        }
    }

    /// The whole part of the number, where the number is not negative.
    pub open spec fn spec_to_u128(&self) -> Option<u128> {
        if self.mantissa >= 0 {
            Some(self.whole_part() as u128)
        } else {
            None
        }
    }

    /// The number zero.
    pub open spec fn spec_zero() -> Dec {
        Dec { mantissa: 0, scale: 0 }
    }

    /// The number zero.
    pub fn zero() -> (r: Dec)
        ensures
            r == Dec::spec_zero(),
            r.wf(),
    {
        Dec { mantissa: 0, scale: 0 }
    }

    /// Whether the number is zero.
    pub fn is_zero(&self) -> (r: bool)
        ensures
            r == (self.mantissa == 0),
    {
        self.mantissa == 0
    }

    /// The number without its sign.
    pub fn abs(&self) -> (r: Dec)
        requires
            self.wf(),
        ensures
            r.wf(),
            r == self.spec_abs(),
    {
        if self.mantissa < 0 {
            Dec { mantissa: -self.mantissa, scale: self.scale }
        } else {
            *self
        }
    }

    /// A 64-bit number as a decimal: every one is held exactly, with no
    /// fractional digit.
    pub fn from_u64(n: u64) -> (r: Option<Dec>)
        ensures
            r == Some(Dec { mantissa: n as i128, scale: 0 }),
            r.unwrap().wf(),
    {
        Some(Dec { mantissa: n as i128, scale: 0 })
    }

    /// A 128-bit number as a decimal: one below 2^96 is held exactly, with
    /// no fractional digit, and a larger one is refused.
    pub fn from_u128(n: u128) -> (r: Option<Dec>)
        ensures
            r == Dec::spec_from_u128(n),
            r.is_some() ==> r.unwrap().wf(),
    {
        if n <= MAX_MANTISSA as u128 {
            Some(Dec { mantissa: n as i128, scale: 0 })
        } else {
            None
        }
    }

    /// `ToPrimitive::to_u64` of `Decimal`: the whole part of a number that is
    /// not negative, where it fits in 64 bits, and nothing otherwise.
    #[verifier::external_body]
    pub(crate) fn to_u64(&self) -> (r: Option<u64>)
        requires
            self.wf(),
        ensures
            r == self.spec_to_u64(),
    {
        Decimal::from_i128_with_scale(self.mantissa, self.scale).to_u64()
    }

    /// `ToPrimitive::to_u128` of `Decimal`: the whole part of a number that is
    /// not negative, and nothing for a negative one.
    #[verifier::external_body]
    pub(crate) fn to_u128(&self) -> (r: Option<u128>)
        requires
            self.wf(),
        ensures
            r == self.spec_to_u128(),
    {
        Decimal::from_i128_with_scale(self.mantissa, self.scale).to_u128()
    }

    /// `Decimal::checked_add`: the sum, or nothing where it overflows.
    #[verifier::external_body]
    pub(crate) fn checked_add(&self, other: &Dec) -> (r: Option<Dec>)
        requires
            self.wf(),
            other.wf(),
        ensures
            Dec::answer(
                r,
                decimal_sum(
                    self.mantissa as int,
                    self.scale as nat,
                    other.mantissa as int,
                    other.scale as nat,
                ),
            ),
            r == self.spec_checked_add(other),
    {
        let a = Decimal::from_i128_with_scale(self.mantissa, self.scale);
        let b = Decimal::from_i128_with_scale(other.mantissa, other.scale);
        match a.checked_add(b) {
            Some(d) => Some(Dec { mantissa: d.mantissa(), scale: d.scale() }),
            None => None,
        }
    }

    /// `Decimal::checked_sub`: the difference, or nothing where it overflows.
    /// A number less itself is zero.
    #[verifier::external_body]
    pub(crate) fn checked_sub(&self, other: &Dec) -> (r: Option<Dec>)
        requires
            self.wf(),
            other.wf(),
        ensures
            Dec::answer(
                r,
                decimal_difference(
                    self.mantissa as int,
                    self.scale as nat,
                    other.mantissa as int,
                    other.scale as nat,
                ),
            ),
            r == self.spec_checked_sub(other),
            *self == *other ==> r.is_some() && r.unwrap().mantissa == 0,
    {
        let a = Decimal::from_i128_with_scale(self.mantissa, self.scale);
        let b = Decimal::from_i128_with_scale(other.mantissa, other.scale);
        match a.checked_sub(b) {
            Some(d) => Some(Dec { mantissa: d.mantissa(), scale: d.scale() }),
            None => None,
        }
    }

    /// `Decimal::checked_mul`: the product, or nothing where it overflows.
    /// A product with zero is the crate's zero, which has no fractional digit.
    #[verifier::external_body]
    pub(crate) fn checked_mul(&self, other: &Dec) -> (r: Option<Dec>)
        requires
            self.wf(),
            other.wf(),
        ensures
            Dec::answer(
                r,
                decimal_product(
                    self.mantissa as int,
                    self.scale as nat,
                    other.mantissa as int,
                    other.scale as nat,
                ),
            ),
            r == self.spec_checked_mul(other),
            self.mantissa == 0 || other.mantissa == 0 ==> r == Some(Dec { mantissa: 0, scale: 0 }),
    {
        let a = Decimal::from_i128_with_scale(self.mantissa, self.scale);
        let b = Decimal::from_i128_with_scale(other.mantissa, other.scale);
        match a.checked_mul(b) {
            Some(d) => Some(Dec { mantissa: d.mantissa(), scale: d.scale() }),
            None => None,
        }
    }

    /// `Decimal::checked_div`: the quotient, or nothing where it overflows or
    /// the divisor is zero. Zero divided by another number is the crate's
    /// zero, which has no fractional digit.
    #[verifier::external_body]
    pub(crate) fn checked_div(&self, other: &Dec) -> (r: Option<Dec>)
        requires
            self.wf(),
            other.wf(),
        ensures
            Dec::answer(
                r,
                decimal_quotient(
                    self.mantissa as int,
                    self.scale as nat,
                    other.mantissa as int,
                    other.scale as nat,
                ),
            ),
            r == self.spec_checked_div(other),
            other.mantissa == 0 ==> r.is_none(),
            self.mantissa == 0 && other.mantissa != 0 ==> r == Some(Dec { mantissa: 0, scale: 0 }),
    {
        let a = Decimal::from_i128_with_scale(self.mantissa, self.scale);
        let b = Decimal::from_i128_with_scale(other.mantissa, other.scale);
        match a.checked_div(b) {
            Some(d) => Some(Dec { mantissa: d.mantissa(), scale: d.scale() }),
            None => None,
        }
    }

    /// `MathematicalOps::checked_ln` of `Decimal`: the natural logarithm as
    /// the crate computes it, or nothing where it gives none.
    #[verifier::external_body]
    pub(crate) fn checked_ln(&self) -> (r: Option<Dec>)
        requires
            self.wf(),
        ensures
            Dec::answer(r, decimal_ln(self.mantissa as int, self.scale as nat)),
            r == self.spec_checked_ln(),
    {
        match Decimal::from_i128_with_scale(self.mantissa, self.scale).checked_ln() {
            Some(d) => Some(Dec { mantissa: d.mantissa(), scale: d.scale() }),
            None => None,
        }
    }
}

} // verus!
