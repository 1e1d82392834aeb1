//! Monetary amounts as integer counts of minor currency units.
use vstd::prelude::*;
use vstd::std_specs::ops::{AddSpecImpl, MulSpecImpl, NegSpecImpl, SubSpecImpl};
use vstd::std_specs::convert::FromSpecImpl;
use core::ops::{Add, Mul, Neg, Sub};
use crate::reporting::trial_balance::saturating_sum;
use crate::text::{decimal_text, format_minor_decimal, i128_to_string, int_decimal, saturating_abs};

verus! {

/// Error type for monetary amount operations.
#[derive(Debug, Clone, PartialEq, Eq, Structural)]
#[non_exhaustive]
pub enum AmountError {
    /// Arithmetic operation resulted in overflow.
    Overflow,
    /// Arithmetic operation resulted in underflow.
    Underflow,
}

impl AmountError {
    /// The human-readable message for this error.
    pub fn to_string(&self) -> (s: String)
        ensures
            s@ == (match self {
                AmountError::Overflow => "amount overflow"@,
                AmountError::Underflow => "amount underflow"@,
            }),
    {
        match self {
            AmountError::Overflow => "amount overflow".to_string(),
            AmountError::Underflow => "amount underflow".to_string(),
        }
    }
}

/// `x` clamped into the range of `i128`.
pub open spec fn clamp_i128(x: int) -> int {
    if x > i128::MAX {
        i128::MAX as int
    } else if x < i128::MIN {
        i128::MIN as int
    } else {
        x
    }
}

/// Whether `x` fits in an `i128`.
pub open spec fn fits_i128(x: int) -> bool {
    i128::MIN <= x <= i128::MAX
}

/// A monetary amount stored as an integer count of minor currency units.
///
/// The `+`, `-`, `*` and unary `-` operators saturate at the bounds of
/// `i128`; the `checked_*` methods report overflow instead.
#[derive(Debug, Clone, Copy, PartialEq, Eq, Structural, PartialOrd, Ord, Hash, Default)]
pub struct Amount(i128);

impl View for Amount {
    type V = int;

    closed spec fn view(&self) -> int {
        self.0 as int
    }
}

/// Two amounts with the same value are the same amount.
pub broadcast proof fn lemma_amount_ext(a: Amount, b: Amount)
    ensures
        #![trigger a@, b@]
        (a@ == b@) ==> a == b,
{
}

/// Every amount fits in an `i128`.
pub broadcast proof fn lemma_amount_range(a: Amount)
    ensures
        i128::MIN <= #[trigger] a@ <= i128::MAX,
{
}

impl Amount {
    /// An amount of zero.
    pub fn zero() -> (a: Amount)
        ensures
            a@ == 0,
    {
        Amount(0)
    }

    /// Creates a new `Amount` from a count of minor currency units.
    pub fn new(minor_units: i128) -> (a: Amount)
        ensures
            a@ == minor_units,
    {
        Amount(minor_units)
    }

    /// Returns the raw minor-unit value.
    pub fn minor_units(self) -> (v: i128)
        ensures
            v == self@,
    {
        self.0
    }

    /// Returns `true` if this amount is exactly zero.
    pub fn is_zero(self) -> (b: bool)
        ensures
            b == (self@ == 0),
    {
        self.0 == 0
    }

    /// Returns `true` if this amount is strictly positive.
    pub fn is_positive(self) -> (b: bool)
        ensures
            b == (self@ > 0),
    {
        self.0 > 0
    }

    /// Returns `true` if this amount is strictly negative.
    pub fn is_negative(self) -> (b: bool)
        ensures
            b == (self@ < 0),
    {
        self.0 < 0
    }

    /// Returns the absolute value of this amount (saturating at `i128::MAX`).
    pub fn abs(self) -> (a: Amount)
        ensures
            a@ == saturating_abs(self@),
    {
        if self.0 == i128::MIN {
            Amount(i128::MAX)
        } else if self.0 < 0 {
            Amount(-self.0)
        } else {
            self
        }
    }

    /// Checked addition. Returns `None` on overflow.
    pub fn checked_add(self, rhs: Amount) -> (r: Option<Amount>)
        ensures
            r is Some <==> fits_i128(self@ + rhs@),
            r matches Some(a) ==> a@ == self@ + rhs@,
    {
        match self.0.checked_add(rhs.0) {
            Some(v) => Some(Amount(v)),
            None => None,
        }
    }

    /// Checked subtraction. Returns `None` on underflow.
    pub fn checked_sub(self, rhs: Amount) -> (r: Option<Amount>)
        ensures
            r is Some <==> fits_i128(self@ - rhs@),
            r matches Some(a) ==> a@ == self@ - rhs@,
    {
        match self.0.checked_sub(rhs.0) {
            Some(v) => Some(Amount(v)),
            None => None,
        }
    }

    /// Checked multiplication by a scalar. Returns `None` on overflow.
    pub fn checked_mul(self, rhs: i128) -> (r: Option<Amount>)
        ensures
            r is Some <==> fits_i128(self@ * rhs),
            r matches Some(a) ==> a@ == self@ * rhs,
    {
        match self.0.checked_mul(rhs) {
            Some(v) => Some(Amount(v)),
            None => None,
        }
    }

    /// Formats this amount as a decimal string with the given number of
    /// decimal places, e.g. `1234` with two places is `"12.34"`.
    pub fn format_decimal(self, decimal_places: u8) -> (s: String)
        requires
            decimal_places <= 38,
        ensures
            s@ == decimal_text(self@, decimal_places as nat),
    {
        format_minor_decimal(self.0, decimal_places)
    }

    /// The raw minor-unit value written in decimal, e.g. `"-50"`.
    pub fn to_string(&self) -> (s: String)
        ensures
            s@ == int_decimal(self@),
    {
        i128_to_string(self.0)
    }
}

/// The values of a list of amounts.
pub open spec fn amount_values(amounts: Seq<Amount>) -> Seq<int> {
    amounts.map_values(|a: Amount| a@)
}

impl Amount {
    /// Adds up a list of amounts from zero with the saturating `+`.
    pub fn sum(amounts: &[Amount]) -> (r: Amount)
        ensures
            r@ == saturating_sum(amount_values(amounts@)),
    {
        let ghost vs = amount_values(amounts@);
        let mut total = Amount::zero();
        let mut i: usize = 0;
        while i < amounts.len()
            invariant
                i <= amounts@.len(),
                vs == amount_values(amounts@),
                total@ == saturating_sum(vs.subrange(0, i as int)),
            decreases amounts@.len() - i,
        {
            assert(vs.subrange(0, i + 1).drop_last() =~= vs.subrange(0, i as int));
            total = Add::add(total, amounts[i]);
            i = i + 1;
        }
        assert(vs.subrange(0, i as int) =~= vs);
        total
    }
}

impl Add for Amount {
    type Output = Amount;

    fn add(self, rhs: Amount) -> (r: Amount)
        ensures
            r@ == clamp_i128(self@ + rhs@),
    {
        match self.0.checked_add(rhs.0) {
            Some(v) => Amount(v),
            None => if rhs.0 > 0 {
                Amount(i128::MAX)
            } else {
                Amount(i128::MIN)
            },
        }
    }
}

/// The amount with value `v`, for `v` in the range of `i128`.
pub closed spec fn amount_of(v: int) -> Amount {
    Amount(v as i128)
}

/// `amount_of` produces an amount of the requested value.
pub broadcast proof fn lemma_amount_of(v: int)
    requires
        fits_i128(v),
    ensures
        #[trigger] amount_of(v)@ == v,
{
}

impl AddSpecImpl for Amount {
    open spec fn obeys_add_spec() -> bool {
        true
    }

    open spec fn add_req(self, rhs: Amount) -> bool {
        true
    }

    open spec fn add_spec(self, rhs: Amount) -> Amount {
        amount_of(clamp_i128(self@ + rhs@))
    }
}

impl Sub for Amount {
    type Output = Amount;

    fn sub(self, rhs: Amount) -> (r: Amount)
        ensures
            r@ == clamp_i128(self@ - rhs@),
    {
        match self.0.checked_sub(rhs.0) {
            Some(v) => Amount(v),
            None => if rhs.0 < 0 {
                Amount(i128::MAX)
            } else {
                Amount(i128::MIN)
            },
        }
    }
}

impl SubSpecImpl for Amount {
    open spec fn obeys_sub_spec() -> bool {
        true
    }

    open spec fn sub_req(self, rhs: Amount) -> bool {
        true
    }

    open spec fn sub_spec(self, rhs: Amount) -> Amount {
        amount_of(clamp_i128(self@ - rhs@))
    }
}

impl Mul<i128> for Amount {
    type Output = Amount;

    fn mul(self, rhs: i128) -> (r: Amount)
        ensures
            r@ == clamp_i128(self@ * rhs),
    {
        match self.0.checked_mul(rhs) {
            Some(v) => Amount(v),
            None => {
                if (self.0 < 0) == (rhs < 0) {
                    assert(self@ * rhs > i128::MAX) by (nonlinear_arith)
                        requires
                            (self.0 < 0) == (rhs < 0),
                            !fits_i128(self.0 * rhs),
                    ;
                    Amount(i128::MAX)
                } else {
                    assert(self@ * rhs < i128::MIN) by (nonlinear_arith)
                        requires
                            (self.0 < 0) != (rhs < 0),
                            !fits_i128(self.0 * rhs),
                    ;
                    Amount(i128::MIN)
                }
            },
        }
    }
}

impl MulSpecImpl<i128> for Amount {
    open spec fn obeys_mul_spec() -> bool {
        true
    }

    open spec fn mul_req(self, rhs: i128) -> bool {
        true
    }

    open spec fn mul_spec(self, rhs: i128) -> Amount {
        amount_of(clamp_i128(self@ * rhs))
    }
}

impl Neg for Amount {
    type Output = Amount;

    fn neg(self) -> (r: Amount)
        ensures
            r@ == clamp_i128(-self@),
    {
        if self.0 == i128::MIN {
            Amount(i128::MAX)
        } else {
            Amount(-self.0)
        }
    }
}

impl NegSpecImpl for Amount {
    open spec fn obeys_neg_spec() -> bool {
        true
    }

    open spec fn neg_req(self) -> bool {
        true
    }

    open spec fn neg_spec(self) -> Amount {
        amount_of(clamp_i128(-self@))
    }
}

impl From<i64> for Amount {
    fn from(value: i64) -> (a: Amount)
        ensures
            a@ == value,
    {
        Amount(value as i128)
    }
}

impl FromSpecImpl<i64> for Amount {
    open spec fn obeys_from_spec() -> bool {
        true
    }

    open spec fn from_spec(v: i64) -> Amount {
        amount_of(v as int)
    }
}

impl From<i128> for Amount {
    fn from(value: i128) -> (a: Amount)
        ensures
            a@ == value,
    {
        Amount(value)
    }
}

impl FromSpecImpl<i128> for Amount {
    open spec fn obeys_from_spec() -> bool {
        true
    }

    open spec fn from_spec(v: i128) -> Amount {
        amount_of(v as int)
    }
}

} // verus!
