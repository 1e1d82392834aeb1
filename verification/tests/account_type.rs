use beankeeper::error::BeanError;
use beankeeper::journal::{JournalEntry, Ledger, Transaction, TransactionError};
use beankeeper::reporting::{AccountBalance, TrialBalance};
use beankeeper::types::clearance::{ClearanceStatus, ParseClearanceError};
use beankeeper::types::document::{DocumentType, DocumentTypeError, SourceDocument, SourceDocumentError};
use beankeeper::types::idempotency::{IdempotencyKey, IdempotencyKeyError};
use beankeeper::types::{
    Account, AccountCode, AccountCodeError, AccountType, AccountTypeError, Amount, AmountError,
    Currency, CurrencyError, Date, DebitCreditError, DebitOrCredit, Entry, EntryError, Money,
    MoneyError,
};

#[test]
fn asset_normal_balance_is_debit() {
    assert_eq!(AccountType::Asset.normal_balance(), DebitOrCredit::Debit);
}

#[test]
fn liability_normal_balance_is_credit() {
    assert_eq!(AccountType::Liability.normal_balance(), DebitOrCredit::Credit);
}

#[test]
fn equity_normal_balance_is_credit() {
    assert_eq!(AccountType::Equity.normal_balance(), DebitOrCredit::Credit);
}

#[test]
fn revenue_normal_balance_is_credit() {
    assert_eq!(AccountType::Revenue.normal_balance(), DebitOrCredit::Credit);
}

#[test]
fn expense_normal_balance_is_debit() {
    assert_eq!(AccountType::Expense.normal_balance(), DebitOrCredit::Debit);
}

#[test]
fn asset_is_debit_normal() {
    assert!(AccountType::Asset.is_debit_normal());
    assert!(!AccountType::Asset.is_credit_normal());
}

#[test]
fn liability_is_credit_normal() {
    assert!(AccountType::Liability.is_credit_normal());
    assert!(!AccountType::Liability.is_debit_normal());
}

#[test]
fn increases_with_matches_normal_balance() {
    assert_eq!(AccountType::Asset.increases_with(), DebitOrCredit::Debit);
    assert_eq!(AccountType::Liability.increases_with(), DebitOrCredit::Credit);
}

#[test]
fn decreases_with_is_opposite_of_normal() {
    assert_eq!(AccountType::Asset.decreases_with(), DebitOrCredit::Credit);
    assert_eq!(AccountType::Revenue.decreases_with(), DebitOrCredit::Debit);
}

#[test]
fn asset_is_balance_sheet() {
    assert!(AccountType::Asset.is_balance_sheet());
    assert!(AccountType::Liability.is_balance_sheet());
    assert!(AccountType::Equity.is_balance_sheet());
}

#[test]
fn revenue_is_income_statement() {
    assert!(AccountType::Revenue.is_income_statement());
    assert!(AccountType::Expense.is_income_statement());
}

#[test]
fn balance_sheet_and_income_statement_are_exclusive() {
    assert!(!AccountType::Asset.is_income_statement());
    assert!(!AccountType::Revenue.is_balance_sheet());
}

#[test]
fn from_str_round_trips_all_variants() {
    let variants = ["Asset", "Liability", "Equity", "Revenue", "Expense"];
    for name in &variants {
        let parsed: AccountType = name.parse().unwrap_or(AccountType::Asset);
        assert_eq!(parsed.to_string(), *name);
    }
}

#[test]
fn from_str_lowercase() {
    assert_eq!("asset".parse::<AccountType>().ok(), Some(AccountType::Asset));
    assert_eq!("expense".parse::<AccountType>().ok(), Some(AccountType::Expense));
}

#[test]
fn account_type_from_str_invalid() {
    assert!("Debit".parse::<AccountType>().is_err());
}

#[test]
fn display_all_variants() {
    assert_eq!((AccountType::Asset).to_string(), "Asset");
    assert_eq!((AccountType::Liability).to_string(), "Liability");
    assert_eq!((AccountType::Equity).to_string(), "Equity");
    assert_eq!((AccountType::Revenue).to_string(), "Revenue");
    assert_eq!((AccountType::Expense).to_string(), "Expense");
}
