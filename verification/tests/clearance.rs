use beankeeper::error::BeanError;
use beankeeper::journal::{JournalEntry, Ledger, Transaction, TransactionError};
use beankeeper::reporting::{AccountBalance, TrialBalance};
use beankeeper::types::clearance::{ClearanceStatus, ParseClearanceError};
use beankeeper::types::document::{DocumentType, DocumentTypeError, SourceDocument, SourceDocumentError};
use beankeeper::types::idempotency::{IdempotencyKey, IdempotencyKeyError};
use beankeeper::types::{
    Account, AccountCode, AccountCodeError, AccountType, AccountTypeError, Amount, AmountError,
    Currency, CurrencyError, Date, DebitCreditError, DebitOrCredit, Entry, EntryError, Money,
    MoneyError,
};

#[test]
fn as_str_and_display() {
    assert_eq!(ClearanceStatus::Uncleared.as_str(), "uncleared");
    assert_eq!((ClearanceStatus::Cleared).to_string(), "cleared");
}

#[test]
fn from_str() {
    assert_eq!("uncleared".parse(), Ok(ClearanceStatus::Uncleared));
    assert_eq!("CLEARED".parse(), Ok(ClearanceStatus::Cleared));
    assert_eq!("Reconciled".parse(), Ok(ClearanceStatus::Reconciled));
    assert!("invalid".parse::<ClearanceStatus>().is_err());
}
