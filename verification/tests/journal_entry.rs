use beankeeper::error::BeanError;
use beankeeper::journal::{JournalEntry, Ledger, Transaction, TransactionError};
use beankeeper::reporting::{AccountBalance, TrialBalance};
use beankeeper::types::clearance::{ClearanceStatus, ParseClearanceError};
use beankeeper::types::document::{DocumentType, DocumentTypeError, SourceDocument, SourceDocumentError};
use beankeeper::types::idempotency::{IdempotencyKey, IdempotencyKeyError};
use beankeeper::types::{
    Account, AccountCode, AccountCodeError, AccountType, AccountTypeError, Amount, AmountError,
    Currency, CurrencyError, Date, DebitCreditError, DebitOrCredit, Entry, EntryError, Money,
    MoneyError,
};

fn date(y: i32, m: u32, d: u32) -> Date {
    Date::from_ymd_opt(y, m, d).unwrap()
}

fn make_account(code: &str, name: &str, acct_type: AccountType) -> Account {
    Account::new(
        AccountCode::new(code).unwrap_or_else(|e| panic!("test setup: {e:?}")),
        name,
        acct_type,
    )
}

fn cash() -> Account {
    make_account("1000", "Cash", AccountType::Asset)
}

fn revenue() -> Account {
    make_account("4000", "Revenue", AccountType::Revenue)
}

fn expense() -> Account {
    make_account("5000", "Rent", AccountType::Expense)
}

#[test]
fn simple_two_entry_transaction_posts() {
    let txn = JournalEntry::new(date(2024, 1, 15), "Sale")
        .debit(&cash(), Money::usd(500))
        .unwrap_or_else(|e| panic!("test: {e:?}"))
        .credit(&revenue(), Money::usd(500))
        .unwrap_or_else(|e| panic!("test: {e:?}"))
        .post();

    assert!(txn.is_ok());
}

#[test]
fn multi_entry_transaction_posts() {
    let payable = make_account("2000", "Tax Payable", AccountType::Liability);

    let txn = JournalEntry::new(date(2024, 1, 15), "Sale with tax")
        .debit(&cash(), Money::usd(550))
        .unwrap_or_else(|e| panic!("test: {e:?}"))
        .credit(&revenue(), Money::usd(500))
        .unwrap_or_else(|e| panic!("test: {e:?}"))
        .credit(&payable, Money::usd(50))
        .unwrap_or_else(|e| panic!("test: {e:?}"))
        .post();

    assert!(txn.is_ok());
}

#[test]
fn unbalanced_transaction_rejected() {
    let result = JournalEntry::new(date(2024, 1, 15), "Bad")
        .debit(&cash(), Money::usd(500))
        .unwrap_or_else(|e| panic!("test: {e:?}"))
        .credit(&revenue(), Money::usd(300))
        .unwrap_or_else(|e| panic!("test: {e:?}"))
        .post();

    assert!(matches!(result, Err(TransactionError::Unbalanced { .. })));
}

#[test]
fn no_entries_rejected() {
    let result = JournalEntry::new(date(2024, 1, 15), "Empty").post();
    assert!(matches!(result, Err(TransactionError::NoEntries)));
}

#[test]
fn single_entry_rejected() {
    let result = JournalEntry::new(date(2024, 1, 15), "Single")
        .debit(&cash(), Money::usd(100))
        .unwrap_or_else(|e| panic!("test: {e:?}"))
        .post();

    assert!(matches!(result, Err(TransactionError::SingleEntry)));
}

#[test]
fn mixed_currencies_rejected() {
    let result = JournalEntry::new(date(2024, 1, 15), "Mixed")
        .debit(&cash(), Money::usd(100))
        .unwrap_or_else(|e| panic!("test: {e:?}"))
        .credit(&revenue(), Money::eur(100))
        .unwrap_or_else(|e| panic!("test: {e:?}"))
        .post();

    assert!(matches!(
        result,
        Err(TransactionError::CurrencyMismatch { .. })
    ));
}

#[test]
fn total_debits_equals_total_credits_after_post() {
    let journal = JournalEntry::new(date(2024, 1, 15), "Test")
        .debit(&cash(), Money::usd(1000))
        .unwrap_or_else(|e| panic!("test: {e:?}"))
        .credit(&revenue(), Money::usd(1000))
        .unwrap_or_else(|e| panic!("test: {e:?}"));

    let debits = journal
        .total_debits()
        .unwrap_or_else(|e| panic!("test: {e:?}"));
    let credits = journal
        .total_credits()
        .unwrap_or_else(|e| panic!("test: {e:?}"));
    assert_eq!(debits, credits);
}

#[test]
fn is_balanced_returns_true_for_balanced() {
    let journal = JournalEntry::new(date(2024, 1, 15), "Test")
        .debit(&cash(), Money::usd(100))
        .unwrap_or_else(|e| panic!("test: {e:?}"))
        .credit(&revenue(), Money::usd(100))
        .unwrap_or_else(|e| panic!("test: {e:?}"));

    assert!(journal.is_balanced().unwrap_or(false));
}

#[test]
fn is_balanced_returns_false_for_unbalanced() {
    let journal = JournalEntry::new(date(2024, 1, 15), "Test")
        .debit(&cash(), Money::usd(100))
        .unwrap_or_else(|e| panic!("test: {e:?}"))
        .credit(&revenue(), Money::usd(50))
        .unwrap_or_else(|e| panic!("test: {e:?}"));

    assert!(!journal.is_balanced().unwrap_or(true));
}

#[test]
fn with_metadata() {
    let txn = JournalEntry::new(date(2024, 1, 15), "Sale")
        .with_metadata("INV-001")
        .debit(&cash(), Money::usd(100))
        .unwrap_or_else(|e| panic!("test: {e:?}"))
        .credit(&revenue(), Money::usd(100))
        .unwrap_or_else(|e| panic!("test: {e:?}"))
        .post()
        .unwrap_or_else(|e| panic!("test: {e:?}"));

    assert_eq!(txn.metadata(), Some("INV-001"));
}

#[test]
fn entries_accessor() {
    let journal = JournalEntry::new(date(2024, 1, 15), "Test")
        .debit(&cash(), Money::usd(100))
        .unwrap_or_else(|e| panic!("test: {e:?}"))
        .credit(&revenue(), Money::usd(100))
        .unwrap_or_else(|e| panic!("test: {e:?}"));

    assert_eq!(journal.entries().len(), 2);
}

#[test]
fn entry_method_adds_prebuilt() {
    let entry = Entry::debit(cash(), Money::usd(100)).unwrap_or_else(|e| panic!("test: {e:?}"));
    let journal = JournalEntry::new(date(2024, 1, 15), "Test").entry(entry);
    assert_eq!(journal.entries().len(), 1);
}

#[test]
fn posted_transaction_has_correct_debits_and_credits() {
    let txn = JournalEntry::new(date(2024, 1, 15), "Rent payment")
        .debit(&expense(), Money::usd(1200))
        .unwrap_or_else(|e| panic!("test: {e:?}"))
        .credit(&cash(), Money::usd(1200))
        .unwrap_or_else(|e| panic!("test: {e:?}"))
        .post()
        .unwrap_or_else(|e| panic!("test: {e:?}"));

    assert_eq!(txn.debit_entries().len(), 1);
    assert_eq!(txn.credit_entries().len(), 1);
    assert_eq!(
        txn.total().unwrap_or_else(|e| panic!("test: {e:?}")),
        Money::usd(1200)
    );
}

#[test]
fn unbalanced_error_contains_amounts() {
    let result = JournalEntry::new(date(2024, 1, 15), "Bad")
        .debit(&cash(), Money::usd(500))
        .unwrap_or_else(|e| panic!("test: {e:?}"))
        .credit(&revenue(), Money::usd(300))
        .unwrap_or_else(|e| panic!("test: {e:?}"))
        .post();

    match result {
        Err(TransactionError::Unbalanced {
            total_debits,
            total_credits,
        }) => {
            assert_eq!(total_debits, Amount::new(500));
            assert_eq!(total_credits, Amount::new(300));
        }
        other => panic!("expected Unbalanced, got {other:?}"),
    }
}

#[test]
fn posted_transaction_preserves_date() {
    let txn = JournalEntry::new(date(2024, 3, 15), "Sale")
        .debit(&cash(), Money::usd(100))
        .unwrap_or_else(|e| panic!("test: {e:?}"))
        .credit(&revenue(), Money::usd(100))
        .unwrap_or_else(|e| panic!("test: {e:?}"))
        .post()
        .unwrap_or_else(|e| panic!("test: {e:?}"));

    assert_eq!(txn.date(), date(2024, 3, 15));
}
