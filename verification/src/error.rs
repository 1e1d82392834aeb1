//! Top-level error type aggregating all domain errors.
use vstd::prelude::*;
use crate::journal::transaction::{transaction_error_text, TransactionError};
use crate::types::account_code::{account_code_error_text, AccountCodeError};
use crate::types::account_type::{account_type_error_text, AccountTypeError};
use crate::types::amount::AmountError;
use crate::types::currency::{currency_error_text, CurrencyError};
use crate::types::debit_credit::{debit_credit_error_text, DebitCreditError};
use crate::types::entry::{entry_error_text, EntryError};
use crate::types::money::{money_error_text, MoneyError};

verus! {

/// Top-level error type aggregating all domain errors in the crate.
///
/// Each variant wraps a specific domain error, so that callers can use the
/// `?` operator with any operation of the library.
#[derive(Debug, Clone, PartialEq, Eq)]
#[non_exhaustive]
pub enum BeanError {
    /// An error from monetary amount operations.
    Amount(AmountError),
    /// An error from currency operations.
    Currency(CurrencyError),
    /// An error from money operations.
    Money(MoneyError),
    /// An error from account code validation.
    AccountCode(AccountCodeError),
    /// An error from account type parsing.
    AccountType(AccountTypeError),
    /// An error from debit/credit parsing.
    DebitCredit(DebitCreditError),
    /// An error from entry construction.
    Entry(EntryError),
    /// An error from transaction validation.
    Transaction(TransactionError),
}

/// The message of a library error: that of the wrapped error.
pub open spec fn bean_error_text(e: BeanError) -> Seq<char> {
    match e {
        BeanError::Amount(x) => match x {
            AmountError::Overflow => "amount overflow"@,
            AmountError::Underflow => "amount underflow"@,
        },
        BeanError::Currency(x) => currency_error_text(x),
        BeanError::Money(x) => money_error_text(x),
        BeanError::AccountCode(x) => account_code_error_text(x),
        BeanError::AccountType(x) => account_type_error_text(x),
        BeanError::DebitCredit(x) => debit_credit_error_text(x),
        BeanError::Entry(x) => entry_error_text(x),
        BeanError::Transaction(x) => transaction_error_text(x),
    }
}

impl BeanError {
    /// The message of the wrapped error.
    pub fn to_string(&self) -> (s: String)
        ensures
            s@ == bean_error_text(*self),
    {
        match self {
            BeanError::Amount(e) => e.to_string(),
            BeanError::Currency(e) => e.to_string(),
            BeanError::Money(e) => e.to_string(),
            BeanError::AccountCode(e) => e.to_string(),
            BeanError::AccountType(e) => e.to_string(),
            BeanError::DebitCredit(e) => e.to_string(),
            BeanError::Entry(e) => e.to_string(),
            BeanError::Transaction(e) => e.to_string(),
        }
    }
}

impl From<AmountError> for BeanError {
    fn from(err: AmountError) -> (e: BeanError)
        ensures
            e == BeanError::Amount(err),
    {
        BeanError::Amount(err)
    }
}

impl vstd::std_specs::convert::FromSpecImpl<AmountError> for BeanError {
    open spec fn obeys_from_spec() -> bool {
        true
    }

    open spec fn from_spec(v: AmountError) -> BeanError {
        BeanError::Amount(v)
    }
}

impl From<CurrencyError> for BeanError {
    fn from(err: CurrencyError) -> (e: BeanError)
        ensures
            e == BeanError::Currency(err),
    {
        BeanError::Currency(err)
    }
}

impl vstd::std_specs::convert::FromSpecImpl<CurrencyError> for BeanError {
    open spec fn obeys_from_spec() -> bool {
        true
    }

    open spec fn from_spec(v: CurrencyError) -> BeanError {
        BeanError::Currency(v)
    }
}

impl From<MoneyError> for BeanError {
    fn from(err: MoneyError) -> (e: BeanError)
        ensures
            e == BeanError::Money(err),
    {
        BeanError::Money(err)
    }
}

impl vstd::std_specs::convert::FromSpecImpl<MoneyError> for BeanError {
    open spec fn obeys_from_spec() -> bool {
        true
    }

    open spec fn from_spec(v: MoneyError) -> BeanError {
        BeanError::Money(v)
    }
}

impl From<AccountCodeError> for BeanError {
    fn from(err: AccountCodeError) -> (e: BeanError)
        ensures
            e == BeanError::AccountCode(err),
    {
        BeanError::AccountCode(err)
    }
}

impl vstd::std_specs::convert::FromSpecImpl<AccountCodeError> for BeanError {
    open spec fn obeys_from_spec() -> bool {
        true
    }

    open spec fn from_spec(v: AccountCodeError) -> BeanError {
        BeanError::AccountCode(v)
    }
}

impl From<AccountTypeError> for BeanError {
    fn from(err: AccountTypeError) -> (e: BeanError)
        ensures
            e == BeanError::AccountType(err),
    {
        BeanError::AccountType(err)
    }
}

impl vstd::std_specs::convert::FromSpecImpl<AccountTypeError> for BeanError {
    open spec fn obeys_from_spec() -> bool {
        true
    }

    open spec fn from_spec(v: AccountTypeError) -> BeanError {
        BeanError::AccountType(v)
    }
}

impl From<DebitCreditError> for BeanError {
    fn from(err: DebitCreditError) -> (e: BeanError)
        ensures
            e == BeanError::DebitCredit(err),
    {
        BeanError::DebitCredit(err)
    }
}

impl vstd::std_specs::convert::FromSpecImpl<DebitCreditError> for BeanError {
    open spec fn obeys_from_spec() -> bool {
        true
    }

    open spec fn from_spec(v: DebitCreditError) -> BeanError {
        BeanError::DebitCredit(v)
    }
}

impl From<EntryError> for BeanError {
    fn from(err: EntryError) -> (e: BeanError)
        ensures
            e == BeanError::Entry(err),
    {
        BeanError::Entry(err)
    }
}

impl vstd::std_specs::convert::FromSpecImpl<EntryError> for BeanError {
    open spec fn obeys_from_spec() -> bool {
        true
    }

    open spec fn from_spec(v: EntryError) -> BeanError {
        BeanError::Entry(v)
    }
}

impl From<TransactionError> for BeanError {
    fn from(err: TransactionError) -> (e: BeanError)
        ensures
            e == BeanError::Transaction(err),
    {
        BeanError::Transaction(err)
    }
}

impl vstd::std_specs::convert::FromSpecImpl<TransactionError> for BeanError {
    open spec fn obeys_from_spec() -> bool {
        true
    }

    open spec fn from_spec(v: TransactionError) -> BeanError {
        BeanError::Transaction(v)
    }
}

} // verus!
