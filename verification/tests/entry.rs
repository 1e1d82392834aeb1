use beankeeper::error::BeanError;
use beankeeper::journal::{JournalEntry, Ledger, Transaction, TransactionError};
use beankeeper::reporting::{AccountBalance, TrialBalance};
use beankeeper::types::clearance::{ClearanceStatus, ParseClearanceError};
use beankeeper::types::document::{DocumentType, DocumentTypeError, SourceDocument, SourceDocumentError};
use beankeeper::types::idempotency::{IdempotencyKey, IdempotencyKeyError};
use beankeeper::types::{
    Account, AccountCode, AccountCodeError, AccountType, AccountTypeError, Amount, AmountError,
    Currency, CurrencyError, Date, DebitCreditError, DebitOrCredit, Entry, EntryError, Money,
    MoneyError,
};

fn cash_account() -> Account {
    Account::new(
        AccountCode::new("1000").unwrap_or_else(|e| panic!("test setup: {e:?}")),
        "Cash",
        AccountType::Asset,
    )
}

fn revenue_account() -> Account {
    Account::new(
        AccountCode::new("4000").unwrap_or_else(|e| panic!("test setup: {e:?}")),
        "Revenue",
        AccountType::Revenue,
    )
}

#[test]
fn create_debit_entry() {
    let entry = Entry::debit(cash_account(), Money::usd(500));
    assert!(entry.is_ok());
}

#[test]
fn create_credit_entry() {
    let entry = Entry::credit(revenue_account(), Money::usd(500));
    assert!(entry.is_ok());
}

#[test]
fn zero_amount_rejected() {
    let entry = Entry::debit(cash_account(), Money::usd(0));
    assert!(matches!(entry, Err(EntryError::ZeroAmount)));
}

#[test]
fn negative_amount_rejected() {
    let entry = Entry::debit(cash_account(), Money::usd(-100));
    assert!(matches!(entry, Err(EntryError::NegativeAmount { .. })));
}

#[test]
fn is_debit_flag() {
    let entry = Entry::debit(cash_account(), Money::usd(100))
        .unwrap_or_else(|e| panic!("test: {e:?}"));
    assert!(entry.is_debit());
    assert!(!entry.is_credit());
}

#[test]
fn is_credit_flag() {
    let entry = Entry::credit(revenue_account(), Money::usd(100))
        .unwrap_or_else(|e| panic!("test: {e:?}"));
    assert!(entry.is_credit());
    assert!(!entry.is_debit());
}

#[test]
fn signed_amount_debit_on_debit_normal_account() {
    // Debit on an asset (debit-normal) -> positive
    let entry = Entry::debit(cash_account(), Money::usd(500))
        .unwrap_or_else(|e| panic!("test: {e:?}"));
    assert_eq!(entry.signed_amount(), Amount::new(500));
}

#[test]
fn signed_amount_credit_on_debit_normal_account() {
    // Credit on an asset (debit-normal) -> negative
    let entry = Entry::credit(cash_account(), Money::usd(500))
        .unwrap_or_else(|e| panic!("test: {e:?}"));
    assert_eq!(entry.signed_amount(), Amount::new(-500));
}

#[test]
fn signed_amount_credit_on_credit_normal_account() {
    // Credit on revenue (credit-normal) -> positive
    let entry = Entry::credit(revenue_account(), Money::usd(500))
        .unwrap_or_else(|e| panic!("test: {e:?}"));
    assert_eq!(entry.signed_amount(), Amount::new(500));
}

#[test]
fn signed_amount_debit_on_credit_normal_account() {
    // Debit on revenue (credit-normal) -> negative
    let entry = Entry::debit(revenue_account(), Money::usd(500))
        .unwrap_or_else(|e| panic!("test: {e:?}"));
    assert_eq!(entry.signed_amount(), Amount::new(-500));
}

#[test]
fn entry_accessors() {
    let entry = Entry::debit(cash_account(), Money::usd(100))
        .unwrap_or_else(|e| panic!("test: {e:?}"));
    assert_eq!(entry.account(), &cash_account());
    assert_eq!(entry.amount(), Money::usd(100));
    assert_eq!(entry.direction(), DebitOrCredit::Debit);
}

#[test]
fn display_debit() {
    let entry = Entry::debit(cash_account(), Money::usd(500))
        .unwrap_or_else(|e| panic!("test: {e:?}"));
    assert_eq!(entry.to_string(), "DR Cash USD 5.00");
}

#[test]
fn display_credit() {
    let entry = Entry::credit(revenue_account(), Money::usd(500))
        .unwrap_or_else(|e| panic!("test: {e:?}"));
    assert_eq!(entry.to_string(), "CR Revenue USD 5.00");
}

#[test]
fn new_with_explicit_direction() {
    let entry = Entry::new(cash_account(), Money::usd(100), DebitOrCredit::Credit);
    assert!(entry.is_ok());
    let entry = entry.unwrap_or_else(|e| panic!("test: {e:?}"));
    assert!(entry.is_credit());
}

#[test]
fn different_currency() {
    let entry = Entry::debit(cash_account(), Money::new(Amount::new(100), Currency::EUR));
    assert!(entry.is_ok());
}

#[test]
fn error_display_zero() {
    assert!((EntryError::ZeroAmount).to_string().contains("zero"));
}

#[test]
fn error_display_negative() {
    let err = EntryError::NegativeAmount {
        amount: Amount::new(-100),
    };
    assert!(err.to_string().contains("positive"));
}

#[test]
fn with_memo_sets_memo() {
    let entry =
        Entry::with_memo(cash_account(), Money::usd(500), DebitOrCredit::Debit, "Net pay")
            .unwrap_or_else(|e| panic!("test: {e:?}"));
    assert_eq!(entry.memo(), Some("Net pay"));
}

#[test]
fn debit_with_memo() {
    let entry = Entry::debit_with_memo(cash_account(), Money::usd(500), "Net pay")
        .unwrap_or_else(|e| panic!("test: {e:?}"));
    assert!(entry.is_debit());
    assert_eq!(entry.memo(), Some("Net pay"));
}

#[test]
fn credit_with_memo() {
    let entry = Entry::credit_with_memo(revenue_account(), Money::usd(500), "Sales income")
        .unwrap_or_else(|e| panic!("test: {e:?}"));
    assert!(entry.is_credit());
    assert_eq!(entry.memo(), Some("Sales income"));
}

#[test]
fn memo_is_none_by_default() {
    let entry = Entry::debit(cash_account(), Money::usd(500))
        .unwrap_or_else(|e| panic!("test: {e:?}"));
    assert_eq!(entry.memo(), None);
}

#[test]
fn display_with_memo() {
    let entry = Entry::debit_with_memo(cash_account(), Money::usd(500), "Net pay")
        .unwrap_or_else(|e| panic!("test: {e:?}"));
    assert_eq!(entry.to_string(), "DR Cash USD 5.00 (Net pay)");
}

#[test]
fn with_memo_zero_rejected() {
    let result =
        Entry::with_memo(cash_account(), Money::usd(0), DebitOrCredit::Debit, "memo");
    assert!(matches!(result, Err(EntryError::ZeroAmount)));
}
