use beankeeper::error::BeanError;
use beankeeper::journal::{JournalEntry, Ledger, Transaction, TransactionError};
use beankeeper::reporting::{AccountBalance, TrialBalance};
use beankeeper::types::clearance::{ClearanceStatus, ParseClearanceError};
use beankeeper::types::document::{DocumentType, DocumentTypeError, SourceDocument, SourceDocumentError};
use beankeeper::types::idempotency::{IdempotencyKey, IdempotencyKeyError};
use beankeeper::types::{
    Account, AccountCode, AccountCodeError, AccountType, AccountTypeError, Amount, AmountError,
    Currency, CurrencyError, Date, DebitCreditError, DebitOrCredit, Entry, EntryError, Money,
    MoneyError,
};

#[test]
fn debit_opposite_is_credit() {
    assert_eq!(DebitOrCredit::Debit.opposite(), DebitOrCredit::Credit);
}

#[test]
fn credit_opposite_is_debit() {
    assert_eq!(DebitOrCredit::Credit.opposite(), DebitOrCredit::Debit);
}

#[test]
fn not_operator_works() {
    assert_eq!(!DebitOrCredit::Debit, DebitOrCredit::Credit);
    assert_eq!(!DebitOrCredit::Credit, DebitOrCredit::Debit);
}

#[test]
fn debit_credit_display_format() {
    assert_eq!((DebitOrCredit::Debit).to_string(), "Debit");
    assert_eq!((DebitOrCredit::Credit).to_string(), "Credit");
}

#[test]
fn from_str_variants() {
    assert_eq!(
        "Debit".parse::<DebitOrCredit>().ok(),
        Some(DebitOrCredit::Debit)
    );
    assert_eq!(
        "debit".parse::<DebitOrCredit>().ok(),
        Some(DebitOrCredit::Debit)
    );
    assert_eq!(
        "DR".parse::<DebitOrCredit>().ok(),
        Some(DebitOrCredit::Debit)
    );
    assert_eq!(
        "Credit".parse::<DebitOrCredit>().ok(),
        Some(DebitOrCredit::Credit)
    );
    assert_eq!(
        "credit".parse::<DebitOrCredit>().ok(),
        Some(DebitOrCredit::Credit)
    );
    assert_eq!(
        "CR".parse::<DebitOrCredit>().ok(),
        Some(DebitOrCredit::Credit)
    );
}

#[test]
fn debit_credit_from_str_invalid() {
    assert!("foo".parse::<DebitOrCredit>().is_err());
}

#[test]
fn is_debit() {
    assert!(DebitOrCredit::Debit.is_debit());
    assert!(!DebitOrCredit::Credit.is_debit());
}

#[test]
fn is_credit() {
    assert!(DebitOrCredit::Credit.is_credit());
    assert!(!DebitOrCredit::Debit.is_credit());
}

#[test]
fn sign_values() {
    assert_eq!(DebitOrCredit::Debit.sign(), 1);
    assert_eq!(DebitOrCredit::Credit.sign(), -1);
}

#[test]
fn debit_credit_error_display() {
    let err = DebitCreditError::InvalidValue {
        value: "foo".to_owned(),
    };
    assert!(err.to_string().contains("invalid debit/credit"));
}
