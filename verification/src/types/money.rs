//! Monetary values combining an amount with a currency.
use vstd::prelude::*;
use vstd::std_specs::cmp::PartialEqSpecImpl;
use core::ops::Neg;
use super::amount::{clamp_i128, fits_i128, Amount};
use super::currency::{currency_code_text, Currency};
use crate::text::{decimal_text, saturating_abs};

verus! {

broadcast use super::amount::lemma_amount_ext, super::amount::lemma_amount_range;

/// Error type for monetary operations involving currency.
#[derive(Debug, Clone, PartialEq, Eq)]
#[non_exhaustive]
pub enum MoneyError {
    /// An operation was attempted between two different currencies.
    CurrencyMismatch {
        /// The expected currency.
        expected: Currency,
        /// The actual currency encountered.
        actual: Currency,
    },
    /// Arithmetic overflow.
    Overflow,
}

/// The message of a money error.
pub open spec fn money_error_text(e: MoneyError) -> Seq<char> {
    match e {
        MoneyError::CurrencyMismatch { expected, actual } => "currency mismatch: expected "@
            + currency_code_text(expected) + ", got "@ + currency_code_text(actual),
        MoneyError::Overflow => "monetary arithmetic overflow"@,
    }
}

impl MoneyError {
    /// The human-readable message for this error.
    pub fn to_string(&self) -> (s: String)
        ensures
            s@ == money_error_text(*self),
    {
        match self {
            MoneyError::CurrencyMismatch { expected, actual } => {
                let mut s = "currency mismatch: expected ".to_string();
                s.append(expected.code());
                s.append(", got ");
                s.append(actual.code());
                s
            },
            MoneyError::Overflow => "monetary arithmetic overflow".to_string(),
        }
    }
}

/// Whether two currencies are the same currency (same code and precision).
pub open spec fn same_currency(a: Currency, b: Currency) -> bool {
    a.spec_code() == b.spec_code() && a.spec_minor_units() == b.spec_minor_units()
}

/// A monetary value combining an [`Amount`] with a [`Currency`].
///
/// Arithmetic between different currencies is refused with an error
/// rather than converted.
#[derive(Debug, Clone, Copy, Hash)]
pub struct Money {
    amount: Amount,
    currency: Currency,
}

impl Money {
    /// The amount component.
    pub closed spec fn spec_amount(self) -> Amount {
        self.amount
    }

    /// The currency component.
    pub closed spec fn spec_currency(self) -> Currency {
        self.currency
    }

    /// The amount component as an integer.
    pub open spec fn value(self) -> int {
        self.spec_amount()@
    }

    /// Creates a new `Money` value from an [`Amount`] and [`Currency`].
    pub fn new(amount: Amount, currency: Currency) -> (m: Money)
        ensures
            m.spec_amount() == amount,
            m.spec_currency() == currency,
    {
        Money { amount, currency }
    }

    /// Creates a `Money` value from minor units and a currency.
    pub fn from_minor(minor_units: i128, currency: Currency) -> (m: Money)
        ensures
            m.value() == minor_units,
            m.spec_currency() == currency,
    {
        Money { amount: Amount::new(minor_units), currency }
    }

    /// Creates a USD amount from cents.
    pub fn usd(cents: i128) -> (m: Money)
        ensures
            m.value() == cents,
            m.spec_currency() == Currency::USD,
    {
        Money::from_minor(cents, Currency::USD)
    }

    /// Creates a EUR amount from cents.
    pub fn eur(cents: i128) -> (m: Money)
        ensures
            m.value() == cents,
            m.spec_currency() == Currency::EUR,
    {
        Money::from_minor(cents, Currency::EUR)
    }

    /// Creates a GBP amount from pence.
    pub fn gbp(pence: i128) -> (m: Money)
        ensures
            m.value() == pence,
            m.spec_currency() == Currency::GBP,
    {
        Money::from_minor(pence, Currency::GBP)
    }

    /// Creates a JPY amount (no minor units).
    pub fn jpy(yen: i128) -> (m: Money)
        ensures
            m.value() == yen,
            m.spec_currency() == Currency::JPY,
    {
        Money::from_minor(yen, Currency::JPY)
    }

    /// Returns the [`Amount`] component.
    pub fn amount(&self) -> (a: Amount)
        ensures
            a == self.spec_amount(),
    {
        self.amount
    }

    /// Returns the [`Currency`] component.
    pub fn currency(&self) -> (c: Currency)
        ensures
            c == self.spec_currency(),
    {
        self.currency
    }

    /// Returns `true` if the amount is zero.
    pub fn is_zero(&self) -> (b: bool)
        ensures
            b == (self.value() == 0),
    {
        self.amount.is_zero()
    }

    /// Returns `true` if the amount is strictly positive.
    pub fn is_positive(&self) -> (b: bool)
        ensures
            b == (self.value() > 0),
    {
        self.amount.is_positive()
    }

    /// Returns `true` if the amount is strictly negative.
    pub fn is_negative(&self) -> (b: bool)
        ensures
            b == (self.value() < 0),
    {
        self.amount.is_negative()
    }

    /// Checked addition. Fails on a currency mismatch or on overflow.
    pub fn checked_add(self, rhs: Money) -> (r: Result<Money, MoneyError>)
        ensures
            !same_currency(self.spec_currency(), rhs.spec_currency()) ==> r == Err::<
                Money,
                MoneyError,
            >(MoneyError::CurrencyMismatch {
                expected: self.spec_currency(),
                actual: rhs.spec_currency(),
            }),
            same_currency(self.spec_currency(), rhs.spec_currency()) && !fits_i128(
                self.value() + rhs.value(),
            ) ==> r == Err::<Money, MoneyError>(MoneyError::Overflow),
            same_currency(self.spec_currency(), rhs.spec_currency()) && fits_i128(
                self.value() + rhs.value(),
            ) ==> (r matches Ok(m) && m.value() == self.value() + rhs.value() && m.spec_currency()
                == self.spec_currency()),
    {
        if self.currency != rhs.currency {
            return Err(MoneyError::CurrencyMismatch { expected: self.currency, actual: rhs.currency });
        }
        match self.amount.checked_add(rhs.amount) {
            Some(amount) => Ok(Money::new(amount, self.currency)),
            None => Err(MoneyError::Overflow),
        }
    }

    /// Checked subtraction. Fails on a currency mismatch or on overflow.
    pub fn checked_sub(self, rhs: Money) -> (r: Result<Money, MoneyError>)
        ensures
            !same_currency(self.spec_currency(), rhs.spec_currency()) ==> r == Err::<
                Money,
                MoneyError,
            >(MoneyError::CurrencyMismatch {
                expected: self.spec_currency(),
                actual: rhs.spec_currency(),
            }),
            same_currency(self.spec_currency(), rhs.spec_currency()) && !fits_i128(
                self.value() - rhs.value(),
            ) ==> r == Err::<Money, MoneyError>(MoneyError::Overflow),
            same_currency(self.spec_currency(), rhs.spec_currency()) && fits_i128(
                self.value() - rhs.value(),
            ) ==> (r matches Ok(m) && m.value() == self.value() - rhs.value() && m.spec_currency()
                == self.spec_currency()),
    {
        if self.currency != rhs.currency {
            return Err(MoneyError::CurrencyMismatch { expected: self.currency, actual: rhs.currency });
        }
        match self.amount.checked_sub(rhs.amount) {
            Some(amount) => Ok(Money::new(amount, self.currency)),
            None => Err(MoneyError::Overflow),
        }
    }

    /// Returns this amount with its sign negated (saturating).
    pub fn negate(self) -> (m: Money)
        ensures
            m.value() == clamp_i128(-self.value()),
            m.spec_currency() == self.spec_currency(),
    {
        Money::new(Neg::neg(self.amount), self.currency)
    }

    /// Returns the absolute value of this amount (saturating).
    pub fn abs(self) -> (m: Money)
        ensures
            m.value() == saturating_abs(self.value()),
            m.spec_currency() == self.spec_currency(),
    {
        Money::new(self.amount.abs(), self.currency)
    }

    /// The display form, e.g. `"USD 12.34"`.
    pub fn to_string(&self) -> (s: String)
        requires
            self.spec_currency().spec_minor_units() <= 38,
        ensures
            s@ == currency_code_text(self.spec_currency()) + " "@ + decimal_text(
                self.value(),
                self.spec_currency().spec_minor_units() as nat,
            ),
    {
        let mut s = self.currency.code().to_owned();
        s.append(" ");
        let d = self.amount.format_decimal(self.currency.minor_units());
        s.append(d.as_str());
        s
    }
}

impl PartialEq for Money {
    fn eq(&self, other: &Money) -> (r: bool) {
        self.amount == other.amount && self.currency == other.currency
    }
}

impl PartialEqSpecImpl for Money {
    open spec fn obeys_eq_spec() -> bool {
        true
    }

    open spec fn eq_spec(&self, other: &Money) -> bool {
        self.value() == other.value() && same_currency(self.spec_currency(), other.spec_currency())
    }
}

impl Eq for Money {
}

} // verus!
