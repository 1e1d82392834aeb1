use beankeeper::error::BeanError;
use beankeeper::journal::{JournalEntry, Ledger, Transaction, TransactionError};
use beankeeper::reporting::{AccountBalance, TrialBalance};
use beankeeper::types::clearance::{ClearanceStatus, ParseClearanceError};
use beankeeper::types::document::{DocumentType, DocumentTypeError, SourceDocument, SourceDocumentError};
use beankeeper::types::idempotency::{IdempotencyKey, IdempotencyKeyError};
use beankeeper::types::{
    Account, AccountCode, AccountCodeError, AccountType, AccountTypeError, Amount, AmountError,
    Currency, CurrencyError, Date, DebitCreditError, DebitOrCredit, Entry, EntryError, Money,
    MoneyError,
};

#[test]
fn valid_numeric_code() {
    let code = AccountCode::new("1000");
    assert!(code.is_ok());
    assert_eq!(
        code.unwrap_or_else(|_| panic!("test setup: invalid account code")).as_str(),
        "1000"
    );
}

#[test]
fn valid_code_with_dots() {
    assert!(AccountCode::new("1000.10").is_ok());
}

#[test]
fn valid_code_with_hyphens() {
    assert!(AccountCode::new("1-1000").is_ok());
}

#[test]
fn valid_code_mixed_separators() {
    assert!(AccountCode::new("1-1000.10").is_ok());
}

#[test]
fn empty_code_rejected() {
    assert_eq!(AccountCode::new(""), Err(AccountCodeError::Empty));
}

#[test]
fn invalid_character_rejected() {
    let result = AccountCode::new("100A");
    assert!(matches!(
        result,
        Err(AccountCodeError::InvalidCharacter {
            char: 'A',
            position: 3
        })
    ));
}

#[test]
fn space_rejected() {
    assert!(AccountCode::new("10 00").is_err());
}

#[test]
fn parent_of_with_dot_separator() {
    let parent = AccountCode::new("1000").unwrap_or_else(|_| panic!("test setup: invalid account code"));
    let child = AccountCode::new("1000.10").unwrap_or_else(|_| panic!("test setup: invalid account code"));
    assert!(parent.is_parent_of(&child));
}

#[test]
fn parent_of_with_hyphen_separator() {
    let parent = AccountCode::new("1000").unwrap_or_else(|_| panic!("test setup: invalid account code"));
    let child = AccountCode::new("1000-10").unwrap_or_else(|_| panic!("test setup: invalid account code"));
    assert!(parent.is_parent_of(&child));
}

#[test]
fn not_parent_of_self() {
    let code = AccountCode::new("1000").unwrap_or_else(|_| panic!("test setup: invalid account code"));
    assert!(!code.is_parent_of(&code));
}

#[test]
fn not_parent_of_sibling() {
    let a = AccountCode::new("1000").unwrap_or_else(|_| panic!("test setup: invalid account code"));
    let b = AccountCode::new("1001").unwrap_or_else(|_| panic!("test setup: invalid account code"));
    assert!(!a.is_parent_of(&b));
}

#[test]
fn not_parent_without_separator() {
    let a = AccountCode::new("100").unwrap_or_else(|_| panic!("test setup: invalid account code"));
    let b = AccountCode::new("10000").unwrap_or_else(|_| panic!("test setup: invalid account code"));
    assert!(!a.is_parent_of(&b));
}

#[test]
fn display() {
    let code = AccountCode::new("1000.10").unwrap_or_else(|_| panic!("test setup: invalid account code"));
    assert_eq!(code.to_string(), "1000.10");
}

#[test]
fn as_ref_str() {
    let code = AccountCode::new("1000").unwrap_or_else(|_| panic!("test setup: invalid account code"));
    let s: &str = code.as_ref();
    assert_eq!(s, "1000");
}

#[test]
fn from_str_works() {
    let code: Result<AccountCode, _> = "1000".parse();
    assert!(code.is_ok());
}

#[test]
fn ordering_is_lexicographic() {
    let a = AccountCode::new("1000").unwrap_or_else(|_| panic!("test setup: invalid account code"));
    let b = AccountCode::new("2000").unwrap_or_else(|_| panic!("test setup: invalid account code"));
    assert!(a < b);
}

#[test]
fn error_display_empty() {
    assert_eq!(
        (AccountCodeError::Empty).to_string(),
        "account code cannot be empty"
    );
}

#[test]
fn error_display_invalid_char() {
    let err = AccountCodeError::InvalidCharacter {
        char: 'A',
        position: 3,
    };
    assert!(err.to_string().contains("invalid character"));
}
