use beankeeper::error::BeanError;
use beankeeper::journal::{JournalEntry, Ledger, Transaction, TransactionError};
use beankeeper::reporting::{AccountBalance, TrialBalance};
use beankeeper::types::clearance::{ClearanceStatus, ParseClearanceError};
use beankeeper::types::document::{DocumentType, DocumentTypeError, SourceDocument, SourceDocumentError};
use beankeeper::types::idempotency::{IdempotencyKey, IdempotencyKeyError};
use beankeeper::types::{
    Account, AccountCode, AccountCodeError, AccountType, AccountTypeError, Amount, AmountError,
    Currency, CurrencyError, Date, DebitCreditError, DebitOrCredit, Entry, EntryError, Money,
    MoneyError,
};

#[test]
fn zero_amount_is_zero() {
    assert!(Amount::zero().is_zero());
}

#[test]
fn positive_amount_is_not_negative() {
    let a = Amount::new(100);
    assert!(a.is_positive());
    assert!(!a.is_negative());
    assert!(!a.is_zero());
}

#[test]
fn negative_amount_properties() {
    let a = Amount::new(-100);
    assert!(a.is_negative());
    assert!(!a.is_positive());
}

#[test]
fn add_two_amounts() {
    let a = Amount::new(100);
    let b = Amount::new(200);
    assert_eq!(a + b, Amount::new(300));
}

#[test]
fn add_overflow_saturates() {
    let a = Amount::new(i128::MAX);
    let b = Amount::new(1);
    assert_eq!(a + b, Amount::new(i128::MAX));
}

#[test]
fn checked_add_overflow_returns_none() {
    let a = Amount::new(i128::MAX);
    assert!(a.checked_add(Amount::new(1)).is_none());
}

#[test]
fn sub_two_amounts() {
    let a = Amount::new(300);
    let b = Amount::new(100);
    assert_eq!(a - b, Amount::new(200));
}

#[test]
fn negate_positive_becomes_negative() {
    let a = Amount::new(100);
    assert_eq!(-a, Amount::new(-100));
}

#[test]
fn negate_zero_stays_zero() {
    assert_eq!(-Amount::zero(), Amount::zero());
}

#[test]
fn abs_of_negative() {
    assert_eq!(Amount::new(-50).abs(), Amount::new(50));
}

#[test]
fn abs_of_positive() {
    assert_eq!(Amount::new(50).abs(), Amount::new(50));
}

#[test]
fn format_decimal_two_places() {
    assert_eq!(Amount::new(1234).format_decimal(2), "12.34");
}

#[test]
fn format_decimal_zero_places() {
    assert_eq!(Amount::new(1234).format_decimal(0), "1234");
}

#[test]
fn format_decimal_negative() {
    assert_eq!(Amount::new(-50).format_decimal(2), "-0.50");
}

#[test]
fn format_decimal_three_places() {
    assert_eq!(Amount::new(1234).format_decimal(3), "1.234");
}

#[test]
fn sum_over_iterator() {
    let amounts = [Amount::new(100), Amount::new(200), Amount::new(300)];
    let total: Amount = Amount::sum(&amounts);
    assert_eq!(total, Amount::new(600));
}

#[test]
fn default_is_zero() {
    assert_eq!(Amount::default(), Amount::zero());
}

#[test]
fn ordering_is_numeric() {
    assert!(Amount::new(100) < Amount::new(200));
    assert!(Amount::new(-1) < Amount::new(0));
}

#[test]
fn display_shows_raw_value() {
    assert_eq!((Amount::new(1234)).to_string(), "1234");
    assert_eq!((Amount::new(-50)).to_string(), "-50");
}

#[test]
fn from_i64() {
    let a: Amount = 42_i64.into();
    assert_eq!(a, Amount::new(42));
}

#[test]
fn from_i128() {
    let a: Amount = 42_i128.into();
    assert_eq!(a, Amount::new(42));
}

#[test]
fn mul_by_scalar() {
    assert_eq!(Amount::new(100) * 3, Amount::new(300));
}

#[test]
fn checked_mul_overflow_returns_none() {
    assert!(Amount::new(i128::MAX).checked_mul(2).is_none());
}

#[test]
fn checked_sub_underflow_returns_none() {
    assert!(Amount::new(i128::MIN).checked_sub(Amount::new(1)).is_none());
}
