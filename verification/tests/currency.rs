use beankeeper::error::BeanError;
use beankeeper::journal::{JournalEntry, Ledger, Transaction, TransactionError};
use beankeeper::reporting::{AccountBalance, TrialBalance};
use beankeeper::types::clearance::{ClearanceStatus, ParseClearanceError};
use beankeeper::types::document::{DocumentType, DocumentTypeError, SourceDocument, SourceDocumentError};
use beankeeper::types::idempotency::{IdempotencyKey, IdempotencyKeyError};
use beankeeper::types::{
    Account, AccountCode, AccountCodeError, AccountType, AccountTypeError, Amount, AmountError,
    Currency, CurrencyError, Date, DebitCreditError, DebitOrCredit, Entry, EntryError, Money,
    MoneyError,
};

#[test]
fn usd_has_two_minor_units() {
    assert_eq!(Currency::USD.minor_units(), 2);
}

#[test]
fn jpy_has_zero_minor_units() {
    assert_eq!(Currency::JPY.minor_units(), 0);
}

#[test]
fn bhd_has_three_minor_units() {
    assert_eq!(Currency::BHD.minor_units(), 3);
}

#[test]
fn from_code_valid_uppercase() {
    let usd = Currency::from_code("USD");
    assert!(usd.is_ok());
    assert_eq!(usd.ok(), Some(Currency::USD));
}

#[test]
fn from_code_rejects_lowercase() {
    assert!(Currency::from_code("usd").is_err());
}

#[test]
fn from_code_rejects_wrong_length() {
    assert!(Currency::from_code("US").is_err());
    assert!(Currency::from_code("USDD").is_err());
}

#[test]
fn from_code_rejects_digits() {
    assert!(Currency::from_code("U1D").is_err());
}

#[test]
fn display_shows_code() {
    assert_eq!((Currency::USD).to_string(), "USD");
    assert_eq!((Currency::JPY).to_string(), "JPY");
}

#[test]
fn from_str_round_trips() {
    let usd: Currency = "USD".parse().ok().unwrap_or(Currency::USD);
    assert_eq!(usd, Currency::USD);
}

#[test]
fn code_returns_str() {
    assert_eq!(Currency::EUR.code(), "EUR");
}

#[test]
fn code_bytes_returns_array() {
    assert_eq!(Currency::GBP.code_bytes(), *b"GBP");
}

#[test]
fn unknown_code_returns_error() {
    let result = Currency::from_code("XYZ");
    assert!(matches!(result, Err(CurrencyError::UnknownCode { .. })));
}

#[test]
fn currency_equality() {
    assert_eq!(Currency::USD, Currency::USD);
    assert_ne!(Currency::USD, Currency::EUR);
}

#[test]
fn kwd_has_three_minor_units() {
    assert_eq!(Currency::KWD.minor_units(), 3);
}

#[test]
fn mxn_has_two_minor_units() {
    assert_eq!(Currency::MXN.minor_units(), 2);
    assert_eq!(Currency::MXN.code(), "MXN");
}

#[test]
fn mxn_from_code() {
    let mxn = Currency::from_code("MXN");
    assert!(mxn.is_ok());
    assert_eq!(mxn.ok(), Some(Currency::MXN));
}

#[test]
fn currency_error_display() {
    let err = CurrencyError::InvalidCode {
        value: "usd".to_owned(),
    };
    assert!(err.to_string().contains("invalid currency code"));
}
