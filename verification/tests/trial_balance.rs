use beankeeper::error::BeanError;
use beankeeper::journal::{JournalEntry, Ledger, Transaction, TransactionError};
use beankeeper::reporting::{AccountBalance, TrialBalance};
use beankeeper::types::clearance::{ClearanceStatus, ParseClearanceError};
use beankeeper::types::document::{DocumentType, DocumentTypeError, SourceDocument, SourceDocumentError};
use beankeeper::types::idempotency::{IdempotencyKey, IdempotencyKeyError};
use beankeeper::types::{
    Account, AccountCode, AccountCodeError, AccountType, AccountTypeError, Amount, AmountError,
    Currency, CurrencyError, Date, DebitCreditError, DebitOrCredit, Entry, EntryError, Money,
    MoneyError,
};

fn make_account(code: &str, name: &str, acct_type: AccountType) -> Account {
    Account::new(
        AccountCode::new(code).unwrap_or_else(|e| panic!("test setup: {e:?}")),
        name,
        acct_type,
    )
}

fn make_balanced_trial_balance() -> TrialBalance {
    TrialBalance::new(vec![
        AccountBalance::new(
            make_account("1000", "Cash", AccountType::Asset),
            Amount::new(1000),
            Amount::new(500),
        ),
        AccountBalance::new(
            make_account("4000", "Revenue", AccountType::Revenue),
            Amount::zero(),
            Amount::new(1000),
        ),
        AccountBalance::new(
            make_account("5000", "Rent", AccountType::Expense),
            Amount::new(500),
            Amount::zero(),
        ),
    ])
}

#[test]
fn empty_trial_balance_is_balanced() {
    let tb = TrialBalance::new(vec![]);
    assert!(tb.is_balanced());
}

#[test]
fn balanced_trial_balance() {
    let tb = make_balanced_trial_balance();
    assert!(tb.is_balanced());
    assert_eq!(tb.total_debits(), Amount::new(1500));
    assert_eq!(tb.total_credits(), Amount::new(1500));
}

#[test]
fn unbalanced_trial_balance() {
    let tb = TrialBalance::new(vec![AccountBalance::new(
        make_account("1000", "Cash", AccountType::Asset),
        Amount::new(100),
        Amount::zero(),
    )]);
    assert!(!tb.is_balanced());
}

#[test]
fn accounts_by_type_filters() {
    let tb = make_balanced_trial_balance();

    let assets = tb.accounts_by_type(AccountType::Asset);
    assert_eq!(assets.len(), 1);
    assert_eq!(assets[0].account().name(), "Cash");

    let revenues = tb.accounts_by_type(AccountType::Revenue);
    assert_eq!(revenues.len(), 1);

    let liabilities = tb.accounts_by_type(AccountType::Liability);
    assert!(liabilities.is_empty());
}

#[test]
fn balances_accessor() {
    let tb = make_balanced_trial_balance();
    assert_eq!(tb.balances().len(), 3);
}

#[test]
fn display_shows_balanced_status() {
    let tb = make_balanced_trial_balance();
    let display = tb.to_string();
    assert!(display.contains("BALANCED"));
    assert!(display.contains("Trial Balance"));
}

#[test]
fn display_shows_unbalanced_status() {
    let tb = TrialBalance::new(vec![AccountBalance::new(
        make_account("1000", "Cash", AccountType::Asset),
        Amount::new(100),
        Amount::zero(),
    )]);
    let display = tb.to_string();
    assert!(display.contains("UNBALANCED"));
}
