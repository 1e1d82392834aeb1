use beankeeper::error::BeanError;
use beankeeper::journal::{JournalEntry, Ledger, Transaction, TransactionError};
use beankeeper::reporting::{AccountBalance, TrialBalance};
use beankeeper::types::clearance::{ClearanceStatus, ParseClearanceError};
use beankeeper::types::document::{DocumentType, DocumentTypeError, SourceDocument, SourceDocumentError};
use beankeeper::types::idempotency::{IdempotencyKey, IdempotencyKeyError};
use beankeeper::types::{
    Account, AccountCode, AccountCodeError, AccountType, AccountTypeError, Amount, AmountError,
    Currency, CurrencyError, Date, DebitCreditError, DebitOrCredit, Entry, EntryError, Money,
    MoneyError,
};

fn date(y: i32, m: u32, d: u32) -> Date {
    Date::from_ymd_opt(y, m, d).unwrap()
}

fn make_account(code: &str, name: &str, acct_type: AccountType) -> Account {
    Account::new(
        AccountCode::new(code).unwrap_or_else(|e| panic!("test setup: {e:?}")),
        name,
        acct_type,
    )
}

fn make_balanced_transaction() -> Transaction {
    let cash = make_account("1000", "Cash", AccountType::Asset);
    let revenue = make_account("4000", "Revenue", AccountType::Revenue);

    JournalEntry::new(date(2024, 1, 15), "Test sale")
        .with_metadata("ref-001")
        .debit(&cash, Money::usd(500))
        .unwrap_or_else(|e| panic!("test: {e:?}"))
        .credit(&revenue, Money::usd(500))
        .unwrap_or_else(|e| panic!("test: {e:?}"))
        .post()
        .unwrap_or_else(|e| panic!("test: {e:?}"))
}

#[test]
fn description_preserved() {
    let txn = make_balanced_transaction();
    assert_eq!(txn.description(), "Test sale");
}

#[test]
fn entries_preserved() {
    let txn = make_balanced_transaction();
    assert_eq!(txn.entries().len(), 2);
}

#[test]
fn metadata_preserved() {
    let txn = make_balanced_transaction();
    assert_eq!(txn.metadata(), Some("ref-001"));
}

#[test]
fn debit_entries_filter() {
    let txn = make_balanced_transaction();
    assert_eq!(txn.debit_entries().len(), 1);
}

#[test]
fn credit_entries_filter() {
    let txn = make_balanced_transaction();
    assert_eq!(txn.credit_entries().len(), 1);
}

#[test]
fn involves_account() {
    let txn = make_balanced_transaction();
    let cash = make_account("1000", "Cash", AccountType::Asset);
    let other = make_account("9999", "Other", AccountType::Expense);
    assert!(txn.involves_account(&cash));
    assert!(!txn.involves_account(&other));
}

#[test]
fn total_returns_debit_sum() {
    let txn = make_balanced_transaction();
    let total = txn.total().unwrap_or_else(|e| panic!("test: {e:?}"));
    assert_eq!(total, Money::usd(500));
}

#[test]
fn amount_for_account_returns_signed() {
    let txn = make_balanced_transaction();
    let cash = make_account("1000", "Cash", AccountType::Asset);
    let result = txn
        .amount_for_account(&cash)
        .unwrap_or_else(|e| panic!("test: {e:?}"));
    // Debit on asset (debit-normal) -> positive
    assert_eq!(result, Some(Money::new(Amount::new(500), Currency::USD)));
}

#[test]
fn amount_for_account_not_involved() {
    let txn = make_balanced_transaction();
    let other = make_account("9999", "Other", AccountType::Expense);
    let result = txn
        .amount_for_account(&other)
        .unwrap_or_else(|e| panic!("test: {e:?}"));
    assert_eq!(result, None);
}

#[test]
fn transaction_display_format() {
    let txn = make_balanced_transaction();
    let display = txn.to_string();
    assert!(display.contains("Test sale"));
    assert!(display.contains("DR"));
    assert!(display.contains("CR"));
}

#[test]
fn error_display_no_entries() {
    assert!((TransactionError::NoEntries).to_string().contains("at least two"));
}

#[test]
fn error_display_unbalanced() {
    let err = TransactionError::Unbalanced {
        total_debits: Amount::new(500),
        total_credits: Amount::new(300),
    };
    assert!(err.to_string().contains("unbalanced"));
}
