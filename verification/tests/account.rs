use beankeeper::error::BeanError;
use beankeeper::journal::{JournalEntry, Ledger, Transaction, TransactionError};
use beankeeper::reporting::{AccountBalance, TrialBalance};
use beankeeper::types::clearance::{ClearanceStatus, ParseClearanceError};
use beankeeper::types::document::{DocumentType, DocumentTypeError, SourceDocument, SourceDocumentError};
use beankeeper::types::idempotency::{IdempotencyKey, IdempotencyKeyError};
use beankeeper::types::{
    Account, AccountCode, AccountCodeError, AccountType, AccountTypeError, Amount, AmountError,
    Currency, CurrencyError, Date, DebitCreditError, DebitOrCredit, Entry, EntryError, Money,
    MoneyError,
};

fn make_code(s: &str) -> AccountCode {
    AccountCode::new(s).unwrap_or_else(|_| {
        AccountCode::new("0000").unwrap_or_else(|_| {
            // This path should never be reached in tests
            panic!("test setup failed: could not create account code");
        })
    })
}

#[test]
fn create_account() {
    let acct = Account::new(make_code("1000"), "Cash", AccountType::Asset);
    assert_eq!(acct.name(), "Cash");
    assert_eq!(acct.account_type(), AccountType::Asset);
    assert_eq!(acct.code().as_str(), "1000");
}

#[test]
fn normal_balance_delegates_to_type() {
    let asset = Account::new(make_code("1000"), "Cash", AccountType::Asset);
    assert_eq!(asset.normal_balance(), DebitOrCredit::Debit);

    let liability = Account::new(make_code("2000"), "Payables", AccountType::Liability);
    assert_eq!(liability.normal_balance(), DebitOrCredit::Credit);
}

#[test]
fn account_display_format() {
    let acct = Account::new(make_code("1000"), "Cash", AccountType::Asset);
    assert_eq!(acct.to_string(), "1000 - Cash (Asset)");
}

#[test]
fn account_equality() {
    let a = Account::new(make_code("1000"), "Cash", AccountType::Asset);
    let b = Account::new(make_code("1000"), "Cash", AccountType::Asset);
    assert_eq!(a, b);
}

#[test]
fn inequality_different_code() {
    let a = Account::new(make_code("1000"), "Cash", AccountType::Asset);
    let b = Account::new(make_code("1001"), "Cash", AccountType::Asset);
    assert_ne!(a, b);
}

#[test]
fn inequality_different_name() {
    let a = Account::new(make_code("1000"), "Cash", AccountType::Asset);
    let b = Account::new(make_code("1000"), "Bank", AccountType::Asset);
    assert_ne!(a, b);
}

#[test]
fn inequality_different_type() {
    let a = Account::new(make_code("1000"), "Cash", AccountType::Asset);
    let b = Account::new(make_code("1000"), "Cash", AccountType::Liability);
    assert_ne!(a, b);
}

#[test]
fn accepts_string_name() {
    let acct = Account::new(make_code("1000"), &String::from("Cash"), AccountType::Asset);
    assert_eq!(acct.name(), "Cash");
}
