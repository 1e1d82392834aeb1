//! Single debit or credit lines within a transaction.
use vstd::prelude::*;
use vstd::std_specs::cmp::PartialEqSpecImpl;
use core::ops::Neg;
use super::account::{Account, AccountView};
use super::account_type::normal_side;
use super::amount::Amount;
use super::currency::{currency_code_text, Currency};
use super::debit_credit::DebitOrCredit;
use super::money::Money;
use crate::text::decimal_text;

verus! {

broadcast use super::amount::lemma_amount_ext, super::amount::lemma_amount_range;

/// Error type for [`Entry`] construction.
#[derive(Debug, Clone, PartialEq, Eq, Structural)]
#[non_exhaustive]
pub enum EntryError {
    /// The entry amount was zero.
    ZeroAmount,
    /// The entry amount was negative.
    NegativeAmount {
        /// The invalid amount.
        amount: Amount,
    },
}

/// The message of an entry error.
pub open spec fn entry_error_text(e: EntryError) -> Seq<char> {
    match e {
        EntryError::ZeroAmount => "entry amount must be positive, got zero"@,
        EntryError::NegativeAmount { amount } => "entry amount must be positive, got "@
            + crate::text::int_decimal(amount@),
    }
}

impl EntryError {
    /// The human-readable message for this error.
    pub fn to_string(&self) -> (s: String)
        ensures
            s@ == entry_error_text(*self),
    {
        match self {
            EntryError::ZeroAmount => "entry amount must be positive, got zero".to_string(),
            EntryError::NegativeAmount { amount } => {
                let mut s = "entry amount must be positive, got ".to_string();
                let a = amount.to_string();
                s.append(a.as_str());
                s
            },
        }
    }
}

/// The mathematical content of an entry.
pub struct EntryView {
    /// The account the entry applies to.
    pub account: AccountView,
    /// The amount in minor units; always positive.
    pub amount: int,
    /// The currency of the amount.
    pub currency: Currency,
    /// Debit or credit.
    pub direction: DebitOrCredit,
    /// An optional memo.
    pub memo: Option<Seq<char>>,
}

/// The amount of an entry signed by its account's normal balance:
/// positive when the entry increases the account, negative otherwise.
pub open spec fn signed_value(e: EntryView) -> int {
    if e.direction == normal_side(e.account.kind) {
        e.amount
    } else {
        -e.amount
    }
}

/// The display text of an entry, e.g. `DR Cash USD 5.00 (Net pay)`.
pub open spec fn entry_text(e: EntryView) -> Seq<char> {
    (if e.direction == DebitOrCredit::Debit {
        "DR"@
    } else {
        "CR"@
    }) + " "@ + e.account.name + " "@ + currency_code_text(e.currency) + " "@ + decimal_text(
        e.amount,
        e.currency.spec_minor_units() as nat,
    ) + match e.memo {
        Some(m) => " ("@ + m + ")"@,
        None => Seq::<char>::empty(),
    }
}

/// What `Entry::new` yields for the given inputs (memo aside).
pub open spec fn entry_outcome_ok(account: AccountView, amount: Money, direction: DebitOrCredit, memo: Option<Seq<char>>, e: EntryView) -> bool {
    e == EntryView {
        account,
        amount: amount.value(),
        currency: amount.spec_currency(),
        direction,
        memo,
    }
}

/// A single debit or credit entry within a transaction. The amount is
/// always positive; the direction carries the sign.
#[derive(Debug)]
pub struct Entry {
    account: Account,
    amount: Money,
    direction: DebitOrCredit,
    memo: Option<String>,
}

impl View for Entry {
    type V = EntryView;

    closed spec fn view(&self) -> EntryView {
        EntryView {
            account: self.account@,
            amount: self.amount.value(),
            currency: self.amount.spec_currency(),
            direction: self.direction,
            memo: match self.memo {
                Some(m) => Some(m@),
                None => None,
            },
        }
    }
}

impl Entry {
    #[verifier::type_invariant]
    spec fn inv(self) -> bool {
        self.amount.value() > 0
    }

    /// The amount of every entry is positive.
    pub fn positive(&self)
        ensures
            self@.amount > 0,
    {
        proof {
            use_type_invariant(self);
        }
    }

    /// Creates a new entry with explicit direction.
    ///
    /// Fails with `ZeroAmount` for a zero amount and with `NegativeAmount`
    /// for a negative one.
    pub fn new(account: Account, amount: Money, direction: DebitOrCredit) -> (r: Result<Entry, EntryError>)
        ensures
            amount.value() == 0 ==> r == Err::<Entry, EntryError>(EntryError::ZeroAmount),
            amount.value() < 0 ==> r == Err::<Entry, EntryError>(EntryError::NegativeAmount { amount: amount.spec_amount() }),
            amount.value() > 0 ==> (r matches Ok(e) && entry_outcome_ok(account@, amount, direction, None, e@)),
    {
        if amount.is_zero() {
            return Err(EntryError::ZeroAmount);
        }
        if amount.is_negative() {
            return Err(EntryError::NegativeAmount { amount: amount.amount() });
        }
        Ok(Entry { account, amount, direction, memo: None })
    }

    /// Creates a new entry with explicit direction and a memo.
    pub fn with_memo(account: Account, amount: Money, direction: DebitOrCredit, memo: &str) -> (r: Result<Entry, EntryError>)
        ensures
            amount.value() == 0 ==> r == Err::<Entry, EntryError>(EntryError::ZeroAmount),
            amount.value() < 0 ==> r == Err::<Entry, EntryError>(EntryError::NegativeAmount { amount: amount.spec_amount() }),
            amount.value() > 0 ==> (r matches Ok(e) && entry_outcome_ok(account@, amount, direction, Some(memo@), e@)),
    {
        if amount.is_zero() {
            return Err(EntryError::ZeroAmount);
        }
        if amount.is_negative() {
            return Err(EntryError::NegativeAmount { amount: amount.amount() });
        }
        Ok(Entry { account, amount, direction, memo: Some(memo.to_owned()) })
    }

    /// Creates a debit entry.
    pub fn debit(account: Account, amount: Money) -> (r: Result<Entry, EntryError>)
        ensures
            amount.value() == 0 ==> r == Err::<Entry, EntryError>(EntryError::ZeroAmount),
            amount.value() < 0 ==> r == Err::<Entry, EntryError>(EntryError::NegativeAmount { amount: amount.spec_amount() }),
            amount.value() > 0 ==> (r matches Ok(e) && entry_outcome_ok(account@, amount, DebitOrCredit::Debit, None, e@)),
    {
        Entry::new(account, amount, DebitOrCredit::Debit)
    }

    /// Creates a credit entry.
    pub fn credit(account: Account, amount: Money) -> (r: Result<Entry, EntryError>)
        ensures
            amount.value() == 0 ==> r == Err::<Entry, EntryError>(EntryError::ZeroAmount),
            amount.value() < 0 ==> r == Err::<Entry, EntryError>(EntryError::NegativeAmount { amount: amount.spec_amount() }),
            amount.value() > 0 ==> (r matches Ok(e) && entry_outcome_ok(account@, amount, DebitOrCredit::Credit, None, e@)),
    {
        Entry::new(account, amount, DebitOrCredit::Credit)
    }

    /// Creates a debit entry with a memo.
    pub fn debit_with_memo(account: Account, amount: Money, memo: &str) -> (r: Result<Entry, EntryError>)
        ensures
            amount.value() == 0 ==> r == Err::<Entry, EntryError>(EntryError::ZeroAmount),
            amount.value() < 0 ==> r == Err::<Entry, EntryError>(EntryError::NegativeAmount { amount: amount.spec_amount() }),
            amount.value() > 0 ==> (r matches Ok(e) && entry_outcome_ok(account@, amount, DebitOrCredit::Debit, Some(memo@), e@)),
    {
        Entry::with_memo(account, amount, DebitOrCredit::Debit, memo)
    }

    /// Creates a credit entry with a memo.
    pub fn credit_with_memo(account: Account, amount: Money, memo: &str) -> (r: Result<Entry, EntryError>)
        ensures
            amount.value() == 0 ==> r == Err::<Entry, EntryError>(EntryError::ZeroAmount),
            amount.value() < 0 ==> r == Err::<Entry, EntryError>(EntryError::NegativeAmount { amount: amount.spec_amount() }),
            amount.value() > 0 ==> (r matches Ok(e) && entry_outcome_ok(account@, amount, DebitOrCredit::Credit, Some(memo@), e@)),
    {
        Entry::with_memo(account, amount, DebitOrCredit::Credit, memo)
    }

    /// Returns the account this entry applies to.
    pub fn account(&self) -> (a: &Account)
        ensures
            a@ == self@.account,
    {
        &self.account
    }

    /// Returns the monetary amount of this entry (always positive).
    pub fn amount(&self) -> (m: Money)
        ensures
            m.value() == self@.amount,
            m.spec_currency() == self@.currency,
            m.value() > 0,
    {
        proof {
            use_type_invariant(self);
        }
        self.amount
    }

    /// Returns the direction of this entry.
    pub fn direction(&self) -> (d: DebitOrCredit)
        ensures
            d == self@.direction,
    {
        self.direction
    }

    /// Returns `true` if this is a debit entry.
    pub fn is_debit(&self) -> (b: bool)
        ensures
            b == (self@.direction == DebitOrCredit::Debit),
    {
        self.direction.is_debit()
    }

    /// Returns `true` if this is a credit entry.
    pub fn is_credit(&self) -> (b: bool)
        ensures
            b == (self@.direction == DebitOrCredit::Credit),
    {
        self.direction.is_credit()
    }

    /// Returns the optional memo for this entry.
    pub fn memo(&self) -> (m: Option<&str>)
        ensures
            match m {
                Some(t) => self@.memo == Some(t@),
                None => self@.memo is None,
            },
    {
        match &self.memo {
            Some(t) => Some(t.as_str()),
            None => None,
        }
    }

    /// Returns the amount signed relative to the account's normal balance:
    /// positive when the entry increases the account, negative otherwise.
    pub fn signed_amount(&self) -> (a: Amount)
        ensures
            a@ == signed_value(self@),
    {
        proof {
            use_type_invariant(self);
        }
        if self.direction == self.account.normal_balance() {
            self.amount.amount()
        } else {
            Neg::neg(self.amount.amount())
        }
    }

    /// The display form, e.g. `"DR Cash USD 5.00 (Net pay)"`.
    pub fn to_string(&self) -> (s: String)
        requires
            self@.currency.spec_minor_units() <= 38,
        ensures
            s@ == entry_text(self@),
    {
        let mut s = if self.direction.is_debit() {
            "DR".to_string()
        } else {
            "CR".to_string()
        };
        s.append(" ");
        s.append(self.account.name());
        s.append(" ");
        let m = self.amount.to_string();
        s.append(m.as_str());
        match &self.memo {
            Some(t) => {
                s.append(" (");
                s.append(t.as_str());
                s.append(")");
            },
            None => {},
        }
        s
    }
}

impl Clone for Entry {
    fn clone(&self) -> (r: Entry)
        ensures
            r@ == self@,
    {
        proof {
            use_type_invariant(self);
        }
        Entry {
            account: self.account.clone(),
            amount: self.amount,
            direction: self.direction,
            memo: match &self.memo {
                Some(t) => Some(t.clone()),
                None => None,
            },
        }
    }
}

impl PartialEq for Entry {
    fn eq(&self, other: &Entry) -> (r: bool) {
        let same_memo = match &self.memo {
            Some(a) => match &other.memo {
                Some(b) => crate::text::str_eq(a.as_str(), b.as_str()),
                None => false,
            },
            None => other.memo.is_none(),
        };
        assert(same_memo == (self@.memo == other@.memo));
        self.account == other.account && self.amount == other.amount && self.direction
            == other.direction && same_memo
    }
}

impl PartialEqSpecImpl for Entry {
    open spec fn obeys_eq_spec() -> bool {
        true
    }

    open spec fn eq_spec(&self, other: &Entry) -> bool {
        &&& self@.account == other@.account
        &&& self@.amount == other@.amount
        &&& crate::types::money::same_currency(self@.currency, other@.currency)
        &&& self@.direction == other@.direction
        &&& self@.memo == other@.memo
    }
}

impl Eq for Entry {
}

} // verus!
