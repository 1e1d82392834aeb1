use beankeeper::error::BeanError;
use beankeeper::journal::{JournalEntry, Ledger, Transaction, TransactionError};
use beankeeper::reporting::{AccountBalance, TrialBalance};
use beankeeper::types::clearance::{ClearanceStatus, ParseClearanceError};
use beankeeper::types::document::{DocumentType, DocumentTypeError, SourceDocument, SourceDocumentError};
use beankeeper::types::idempotency::{IdempotencyKey, IdempotencyKeyError};
use beankeeper::types::{
    Account, AccountCode, AccountCodeError, AccountType, AccountTypeError, Amount, AmountError,
    Currency, CurrencyError, Date, DebitCreditError, DebitOrCredit, Entry, EntryError, Money,
    MoneyError,
};

#[test]
fn from_amount_error() {
    let err: BeanError = AmountError::Overflow.into();
    assert!(matches!(err, BeanError::Amount(AmountError::Overflow)));
}

#[test]
fn from_currency_error() {
    let err: BeanError = CurrencyError::InvalidCode {
        value: "bad".to_owned(),
    }
    .into();
    assert!(matches!(err, BeanError::Currency(_)));
}

#[test]
fn from_money_error() {
    let err: BeanError = MoneyError::Overflow.into();
    assert!(matches!(err, BeanError::Money(_)));
}

#[test]
fn from_account_code_error() {
    let err: BeanError = AccountCodeError::Empty.into();
    assert!(matches!(err, BeanError::AccountCode(_)));
}

#[test]
fn error_from_entry_error() {
    let err: BeanError = EntryError::ZeroAmount.into();
    assert!(matches!(err, BeanError::Entry(_)));
}

#[test]
fn error_from_transaction_error() {
    let err: BeanError = TransactionError::NoEntries.into();
    assert!(matches!(err, BeanError::Transaction(_)));
}

#[test]
fn display_delegates() {
    let err = BeanError::Amount(AmountError::Overflow);
    assert_eq!(err.to_string(), "amount overflow");
}
