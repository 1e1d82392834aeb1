use beankeeper::error::BeanError;
use beankeeper::journal::{JournalEntry, Ledger, Transaction, TransactionError};
use beankeeper::reporting::{AccountBalance, TrialBalance};
use beankeeper::types::clearance::{ClearanceStatus, ParseClearanceError};
use beankeeper::types::document::{DocumentType, DocumentTypeError, SourceDocument, SourceDocumentError};
use beankeeper::types::idempotency::{IdempotencyKey, IdempotencyKeyError};
use beankeeper::types::{
    Account, AccountCode, AccountCodeError, AccountType, AccountTypeError, Amount, AmountError,
    Currency, CurrencyError, Date, DebitCreditError, DebitOrCredit, Entry, EntryError, Money,
    MoneyError,
};

#[test]
fn create_usd_money() {
    let m = Money::usd(500);
    assert_eq!(m.amount(), Amount::new(500));
    assert_eq!(m.currency(), Currency::USD);
}

#[test]
fn add_same_currency_succeeds() {
    let a = Money::usd(100);
    let b = Money::usd(200);
    let result = a.checked_add(b);
    assert!(result.is_ok());
    assert_eq!(result.unwrap_or(Money::usd(0)), Money::usd(300));
}

#[test]
fn add_different_currency_returns_error() {
    let a = Money::usd(100);
    let b = Money::eur(100);
    let result = a.checked_add(b);
    assert!(matches!(result, Err(MoneyError::CurrencyMismatch { .. })));
}

#[test]
fn sub_same_currency_succeeds() {
    let a = Money::usd(300);
    let b = Money::usd(100);
    let result = a.checked_sub(b);
    assert!(result.is_ok());
    assert_eq!(result.unwrap_or(Money::usd(0)), Money::usd(200));
}

#[test]
fn sub_different_currency_returns_error() {
    let a = Money::usd(300);
    let b = Money::gbp(100);
    let result = a.checked_sub(b);
    assert!(matches!(result, Err(MoneyError::CurrencyMismatch { .. })));
}

#[test]
fn negate_positive_money() {
    let m = Money::usd(100);
    let neg = m.negate();
    assert_eq!(neg.amount(), Amount::new(-100));
    assert_eq!(neg.currency(), Currency::USD);
}

#[test]
fn abs_of_negative_money() {
    let m = Money::usd(-100);
    assert_eq!(m.abs(), Money::usd(100));
}

#[test]
fn display_usd() {
    let m = Money::usd(1234);
    assert_eq!(m.to_string(), "USD 12.34");
}

#[test]
fn display_jpy() {
    let m = Money::jpy(1234);
    assert_eq!(m.to_string(), "JPY 1234");
}

#[test]
fn display_negative() {
    let m = Money::usd(-50);
    assert_eq!(m.to_string(), "USD -0.50");
}

#[test]
fn zero_money_is_zero() {
    let m = Money::usd(0);
    assert!(m.is_zero());
    assert!(!m.is_positive());
    assert!(!m.is_negative());
}

#[test]
fn positive_money() {
    let m = Money::usd(100);
    assert!(m.is_positive());
    assert!(!m.is_negative());
    assert!(!m.is_zero());
}

#[test]
fn from_minor() {
    let m = Money::from_minor(500, Currency::EUR);
    assert_eq!(m, Money::eur(500));
}

#[test]
fn new_constructor() {
    let m = Money::new(Amount::new(100), Currency::GBP);
    assert_eq!(m, Money::gbp(100));
}

#[test]
fn overflow_on_add() {
    let a = Money::new(Amount::new(i128::MAX), Currency::USD);
    let b = Money::usd(1);
    assert!(matches!(a.checked_add(b), Err(MoneyError::Overflow)));
}

#[test]
fn error_display_currency_mismatch() {
    let err = MoneyError::CurrencyMismatch {
        expected: Currency::USD,
        actual: Currency::EUR,
    };
    assert!(err.to_string().contains("currency mismatch"));
}

#[test]
fn error_display_overflow() {
    assert!((MoneyError::Overflow).to_string().contains("overflow"));
}
