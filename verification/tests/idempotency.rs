use beankeeper::error::BeanError;
use beankeeper::journal::{JournalEntry, Ledger, Transaction, TransactionError};
use beankeeper::reporting::{AccountBalance, TrialBalance};
use beankeeper::types::clearance::{ClearanceStatus, ParseClearanceError};
use beankeeper::types::document::{DocumentType, DocumentTypeError, SourceDocument, SourceDocumentError};
use beankeeper::types::idempotency::{IdempotencyKey, IdempotencyKeyError};
use beankeeper::types::{
    Account, AccountCode, AccountCodeError, AccountType, AccountTypeError, Amount, AmountError,
    Currency, CurrencyError, Date, DebitCreditError, DebitOrCredit, Entry, EntryError, Money,
    MoneyError,
};

#[test]
fn from_reference_produces_prefixed_key() {
    let key = IdempotencyKey::from_reference("chase-2026-03-15-001")
        .unwrap_or_else(|e| panic!("unexpected error: {e:?}"));
    assert!(key.as_str().starts_with("txnref_"));
}

#[test]
fn from_reference_is_deterministic() {
    let key1 = IdempotencyKey::from_reference("chase-2026-03-15-001")
        .unwrap_or_else(|e| panic!("unexpected error: {e:?}"));
    let key2 = IdempotencyKey::from_reference("chase-2026-03-15-001")
        .unwrap_or_else(|e| panic!("unexpected error: {e:?}"));
    assert_eq!(key1.as_str(), key2.as_str());
}

#[test]
fn different_inputs_produce_different_keys() {
    let key1 = IdempotencyKey::from_reference("ref-001")
        .unwrap_or_else(|e| panic!("unexpected error: {e:?}"));
    let key2 = IdempotencyKey::from_reference("ref-002")
        .unwrap_or_else(|e| panic!("unexpected error: {e:?}"));
    assert_ne!(key1.as_str(), key2.as_str());
}

#[test]
fn empty_reference_is_error() {
    let result = IdempotencyKey::from_reference("");
    assert!(matches!(result, Err(IdempotencyKeyError::Empty)));
}

#[test]
fn whitespace_only_reference_is_error() {
    let result = IdempotencyKey::from_reference("   ");
    assert!(matches!(result, Err(IdempotencyKeyError::Empty)));
}

#[test]
fn display_matches_as_str() {
    let key = IdempotencyKey::from_reference("test-ref")
        .unwrap_or_else(|e| panic!("unexpected error: {e:?}"));
    assert_eq!(key.to_string(), key.as_str());
}

#[test]
fn trimmed_input_matches() {
    let key1 = IdempotencyKey::from_reference("  ref-001  ")
        .unwrap_or_else(|e| panic!("unexpected error: {e:?}"));
    let key2 = IdempotencyKey::from_reference("ref-001")
        .unwrap_or_else(|e| panic!("unexpected error: {e:?}"));
    assert_eq!(key1.as_str(), key2.as_str());
}
