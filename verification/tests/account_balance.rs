use beankeeper::error::BeanError;
use beankeeper::journal::{JournalEntry, Ledger, Transaction, TransactionError};
use beankeeper::reporting::{AccountBalance, TrialBalance};
use beankeeper::types::clearance::{ClearanceStatus, ParseClearanceError};
use beankeeper::types::document::{DocumentType, DocumentTypeError, SourceDocument, SourceDocumentError};
use beankeeper::types::idempotency::{IdempotencyKey, IdempotencyKeyError};
use beankeeper::types::{
    Account, AccountCode, AccountCodeError, AccountType, AccountTypeError, Amount, AmountError,
    Currency, CurrencyError, Date, DebitCreditError, DebitOrCredit, Entry, EntryError, Money,
    MoneyError,
};

fn make_account(code: &str, name: &str, acct_type: AccountType) -> Account {
    Account::new(
        AccountCode::new(code).unwrap_or_else(|e| panic!("test setup: {e:?}")),
        name,
        acct_type,
    )
}

#[test]
fn net_balance_debit_heavy() {
    let ab = AccountBalance::new(
        make_account("1000", "Cash", AccountType::Asset),
        Amount::new(500),
        Amount::new(200),
    );
    assert_eq!(ab.net_balance(), Amount::new(300));
}

#[test]
fn net_balance_credit_heavy() {
    let ab = AccountBalance::new(
        make_account("4000", "Revenue", AccountType::Revenue),
        Amount::new(100),
        Amount::new(500),
    );
    assert_eq!(ab.net_balance(), Amount::new(-400));
}

#[test]
fn normal_balance_for_asset() {
    let ab = AccountBalance::new(
        make_account("1000", "Cash", AccountType::Asset),
        Amount::new(500),
        Amount::new(200),
    );
    // Asset is debit-normal: DR - CR = 300
    assert_eq!(ab.normal_balance_amount(), Amount::new(300));
}

#[test]
fn normal_balance_for_revenue() {
    let ab = AccountBalance::new(
        make_account("4000", "Revenue", AccountType::Revenue),
        Amount::new(100),
        Amount::new(500),
    );
    // Revenue is credit-normal: CR - DR = 400
    assert_eq!(ab.normal_balance_amount(), Amount::new(400));
}

#[test]
fn is_zero_when_both_zero() {
    let ab = AccountBalance::new(
        make_account("1000", "Cash", AccountType::Asset),
        Amount::zero(),
        Amount::zero(),
    );
    assert!(ab.is_zero());
}

#[test]
fn is_not_zero_when_has_values() {
    let ab = AccountBalance::new(
        make_account("1000", "Cash", AccountType::Asset),
        Amount::new(100),
        Amount::zero(),
    );
    assert!(!ab.is_zero());
}

#[test]
fn account_balance_accessors() {
    let acct = make_account("1000", "Cash", AccountType::Asset);
    let ab = AccountBalance::new(acct.clone(), Amount::new(500), Amount::new(200));
    assert_eq!(ab.account(), &acct);
    assert_eq!(ab.debit_total(), Amount::new(500));
    assert_eq!(ab.credit_total(), Amount::new(200));
}

#[test]
fn account_balance_display_format() {
    let ab = AccountBalance::new(
        make_account("1000", "Cash", AccountType::Asset),
        Amount::new(500),
        Amount::new(200),
    );
    let display = ab.to_string();
    assert!(display.contains("Cash"));
    assert!(display.contains("DR"));
    assert!(display.contains("CR"));
}
