use beankeeper::error::BeanError;
use beankeeper::journal::{JournalEntry, Ledger, Transaction, TransactionError};
use beankeeper::reporting::{AccountBalance, TrialBalance};
use beankeeper::types::clearance::{ClearanceStatus, ParseClearanceError};
use beankeeper::types::document::{DocumentType, DocumentTypeError, SourceDocument, SourceDocumentError};
use beankeeper::types::idempotency::{IdempotencyKey, IdempotencyKeyError};
use beankeeper::types::{
    Account, AccountCode, AccountCodeError, AccountType, AccountTypeError, Amount, AmountError,
    Currency, CurrencyError, Date, DebitCreditError, DebitOrCredit, Entry, EntryError, Money,
    MoneyError,
};

fn date(y: i32, m: u32, d: u32) -> Date {
    Date::from_ymd_opt(y, m, d).unwrap_or_else(|| panic!("invalid date: {y}-{m}-{d}"))
}

fn make_account(code: &str, name: &str, acct_type: AccountType) -> Account {
    Account::new(
        AccountCode::new(code).unwrap_or_else(|e| panic!("test setup: {e:?}")),
        name,
        acct_type,
    )
}

fn cash() -> Account {
    make_account("1000", "Cash", AccountType::Asset)
}

fn revenue() -> Account {
    make_account("4000", "Revenue", AccountType::Revenue)
}

fn expense() -> Account {
    make_account("5000", "Rent", AccountType::Expense)
}

fn post_sale(ledger: &mut Ledger, amount: i128) {
    post_sale_on(ledger, amount, date(2024, 1, 15));
}

fn post_sale_on(ledger: &mut Ledger, amount: i128, on: Date) {
    let txn = JournalEntry::new(on, "Sale")
        .debit(&cash(), Money::usd(amount))
        .unwrap_or_else(|e| panic!("test: {e:?}"))
        .credit(&revenue(), Money::usd(amount))
        .unwrap_or_else(|e| panic!("test: {e:?}"))
        .post()
        .unwrap_or_else(|e| panic!("test: {e:?}"));
    ledger.post(txn);
}

#[test]
fn empty_ledger_has_zero_balance() {
    let ledger = Ledger::new();
    let balance = ledger
        .balance_for(&cash())
        .unwrap_or_else(|e| panic!("test: {e:?}"));
    assert_eq!(balance, Amount::zero());
}

#[test]
fn post_transaction_increases_count() {
    let mut ledger = Ledger::new();
    assert_eq!(ledger.transaction_count(), 0);
    post_sale(&mut ledger, 500);
    assert_eq!(ledger.transaction_count(), 1);
}

#[test]
fn balance_for_asset_after_debit() {
    let mut ledger = Ledger::new();
    post_sale(&mut ledger, 500);

    // Cash is asset (debit normal) - debit increases it
    let balance = ledger
        .balance_for(&cash())
        .unwrap_or_else(|e| panic!("test: {e:?}"));
    assert_eq!(balance, Amount::new(500));
}

#[test]
fn balance_for_revenue_after_credit() {
    let mut ledger = Ledger::new();
    post_sale(&mut ledger, 500);

    // Revenue is credit normal - credit increases it
    let balance = ledger
        .balance_for(&revenue())
        .unwrap_or_else(|e| panic!("test: {e:?}"));
    assert_eq!(balance, Amount::new(500));
}

#[test]
fn trial_balance_is_balanced() {
    let mut ledger = Ledger::new();
    post_sale(&mut ledger, 500);
    post_sale(&mut ledger, 300);

    let tb = ledger
        .trial_balance()
        .unwrap_or_else(|e| panic!("test: {e:?}"));
    assert!(tb.is_balanced());
}

#[test]
fn multiple_transactions_accumulate() {
    let mut ledger = Ledger::new();
    post_sale(&mut ledger, 500);
    post_sale(&mut ledger, 300);

    let balance = ledger
        .balance_for(&cash())
        .unwrap_or_else(|e| panic!("test: {e:?}"));
    assert_eq!(balance, Amount::new(800));
}

#[test]
fn entries_for_account_returns_correct_entries() {
    let mut ledger = Ledger::new();
    post_sale(&mut ledger, 500);

    let cash_acct = cash();
    let entries = ledger.entries_for(&cash_acct);
    assert_eq!(entries.len(), 1);
    assert!(entries[0].is_debit());
}

#[test]
fn debit_total_for_account() {
    let mut ledger = Ledger::new();
    post_sale(&mut ledger, 500);
    post_sale(&mut ledger, 300);

    let total = ledger
        .debit_total_for(&cash())
        .unwrap_or_else(|e| panic!("test: {e:?}"));
    assert_eq!(total, Amount::new(800));
}

#[test]
fn credit_total_for_account() {
    let mut ledger = Ledger::new();
    post_sale(&mut ledger, 500);

    let total = ledger
        .credit_total_for(&revenue())
        .unwrap_or_else(|e| panic!("test: {e:?}"));
    assert_eq!(total, Amount::new(500));
}

#[test]
fn is_balanced_returns_true() {
    let mut ledger = Ledger::new();
    post_sale(&mut ledger, 500);
    assert!(ledger.is_balanced().unwrap_or(false));
}

#[test]
fn empty_ledger_is_balanced() {
    let ledger = Ledger::new();
    assert!(ledger.is_balanced().unwrap_or(false));
}

#[test]
fn complex_scenario() {
    let mut ledger = Ledger::new();

    // Record a sale
    post_sale(&mut ledger, 1000);

    // Pay rent
    let txn = JournalEntry::new(date(2024, 1, 20), "Rent")
        .debit(&expense(), Money::usd(500))
        .unwrap_or_else(|e| panic!("test: {e:?}"))
        .credit(&cash(), Money::usd(500))
        .unwrap_or_else(|e| panic!("test: {e:?}"))
        .post()
        .unwrap_or_else(|e| panic!("test: {e:?}"));
    ledger.post(txn);

    // Cash should be 1000 - 500 = 500
    let cash_balance = ledger
        .balance_for(&cash())
        .unwrap_or_else(|e| panic!("test: {e:?}"));
    assert_eq!(cash_balance, Amount::new(500));

    // Revenue should be 1000
    let rev_balance = ledger
        .balance_for(&revenue())
        .unwrap_or_else(|e| panic!("test: {e:?}"));
    assert_eq!(rev_balance, Amount::new(1000));

    // Expense should be 500
    let exp_balance = ledger
        .balance_for(&expense())
        .unwrap_or_else(|e| panic!("test: {e:?}"));
    assert_eq!(exp_balance, Amount::new(500));

    // Ledger should be balanced
    assert!(ledger.is_balanced().unwrap_or(false));
}

#[test]
fn transactions_accessor() {
    let mut ledger = Ledger::new();
    post_sale(&mut ledger, 100);
    assert_eq!(ledger.transactions().len(), 1);
}

#[test]
fn transactions_as_of_filters_by_date() {
    let mut ledger = Ledger::new();
    post_sale_on(&mut ledger, 500, date(2024, 1, 10));
    post_sale_on(&mut ledger, 300, date(2024, 1, 20));
    post_sale_on(&mut ledger, 200, date(2024, 2, 1));

    assert_eq!(ledger.transactions_as_of(date(2024, 1, 15)).len(), 1);
    assert_eq!(ledger.transactions_as_of(date(2024, 1, 20)).len(), 2);
    assert_eq!(ledger.transactions_as_of(date(2024, 2, 1)).len(), 3);
}

#[test]
fn balance_for_as_of_filters_by_date() {
    let mut ledger = Ledger::new();
    post_sale_on(&mut ledger, 500, date(2024, 1, 10));
    post_sale_on(&mut ledger, 300, date(2024, 1, 20));

    let balance = ledger
        .balance_for_as_of(&cash(), date(2024, 1, 15))
        .unwrap_or_else(|e| panic!("test: {e:?}"));
    assert_eq!(balance, Amount::new(500));

    let balance = ledger
        .balance_for_as_of(&cash(), date(2024, 1, 20))
        .unwrap_or_else(|e| panic!("test: {e:?}"));
    assert_eq!(balance, Amount::new(800));
}

#[test]
fn trial_balance_as_of_filters_by_date() {
    let mut ledger = Ledger::new();
    post_sale_on(&mut ledger, 500, date(2024, 1, 10));
    post_sale_on(&mut ledger, 300, date(2024, 1, 20));

    let tb = ledger
        .trial_balance_as_of(date(2024, 1, 15))
        .unwrap_or_else(|e| panic!("test: {e:?}"));
    assert!(tb.is_balanced());
    assert_eq!(tb.balances().len(), 2);
}
