use chrono::NaiveDateTime;
use beankeeper::error::BeanError;
use beankeeper::journal::{JournalEntry, Ledger, Transaction, TransactionError};
use beankeeper::reporting::{AccountBalance, TrialBalance};
use beankeeper::types::clearance::{ClearanceStatus, ParseClearanceError};
use beankeeper::types::document::{DocumentType, DocumentTypeError, SourceDocument, SourceDocumentError};
use beankeeper::types::idempotency::{IdempotencyKey, IdempotencyKeyError};
use beankeeper::types::{
    Account, AccountCode, AccountCodeError, AccountType, AccountTypeError, Amount, AmountError,
    Currency, CurrencyError, Date, DebitCreditError, DebitOrCredit, Entry, EntryError, Money,
    MoneyError,
};

fn test_datetime() -> NaiveDateTime {
    NaiveDateTime::parse_from_str("2024-01-15 10:30:00", "%Y-%m-%d %H:%M:%S")
        .unwrap_or_else(|e| panic!("test setup: {e:?}"))
}

// -- DocumentType tests --

#[test]
fn document_type_display() {
    assert_eq!(DocumentType::Receipt.to_string(), "receipt");
    assert_eq!(DocumentType::Invoice.to_string(), "invoice");
    assert_eq!(DocumentType::Statement.to_string(), "statement");
    assert_eq!(DocumentType::Contract.to_string(), "contract");
    assert_eq!(DocumentType::Other.to_string(), "other");
}

#[test]
fn document_type_from_str() {
    assert_eq!(
        "receipt".parse::<DocumentType>().ok(),
        Some(DocumentType::Receipt)
    );
    assert_eq!(
        "INVOICE".parse::<DocumentType>().ok(),
        Some(DocumentType::Invoice)
    );
    assert_eq!(
        "Statement".parse::<DocumentType>().ok(),
        Some(DocumentType::Statement)
    );
    assert_eq!(
        "contract".parse::<DocumentType>().ok(),
        Some(DocumentType::Contract)
    );
    assert_eq!(
        "other".parse::<DocumentType>().ok(),
        Some(DocumentType::Other)
    );
}

#[test]
fn document_type_from_str_invalid() {
    let result = "pdf".parse::<DocumentType>();
    assert!(matches!(result, Err(DocumentTypeError::UnknownType { .. })));
}

#[test]
fn document_type_error_display() {
    let err = DocumentTypeError::UnknownType {
        value: "pdf".to_owned(),
    };
    assert!(err.to_string().contains("pdf"));
}

// -- SourceDocument tests --

#[test]
fn source_document_new() {
    let doc = SourceDocument::new("receipts/001.pdf", DocumentType::Receipt, test_datetime())
        .unwrap_or_else(|e| panic!("test: {e:?}"));

    assert_eq!(doc.uri(), "receipts/001.pdf");
    assert_eq!(doc.document_type(), DocumentType::Receipt);
    assert!(doc.hash().is_none());
    assert_eq!(doc.attached_at(), test_datetime());
}

#[test]
fn source_document_with_hash() {
    let doc = SourceDocument::with_hash(
        "cas/abc123def456",
        DocumentType::Invoice,
        "abc123def456789",
        test_datetime(),
    )
    .unwrap_or_else(|e| panic!("test: {e:?}"));

    assert_eq!(doc.hash(), Some("abc123def456789"));
}

#[test]
fn source_document_empty_uri_rejected() {
    let result = SourceDocument::new("", DocumentType::Receipt, test_datetime());
    assert!(matches!(result, Err(SourceDocumentError::EmptyUri)));
}

#[test]
fn source_document_empty_uri_with_hash_rejected() {
    let result =
        SourceDocument::with_hash("", DocumentType::Receipt, "abc123", test_datetime());
    assert!(matches!(result, Err(SourceDocumentError::EmptyUri)));
}

#[test]
fn source_document_display_without_hash() {
    let doc = SourceDocument::new("invoice.pdf", DocumentType::Invoice, test_datetime())
        .unwrap_or_else(|e| panic!("test: {e:?}"));
    let display = doc.to_string();
    assert!(display.contains("[invoice]"));
    assert!(display.contains("invoice.pdf"));
}

#[test]
fn source_document_display_with_hash() {
    let doc = SourceDocument::with_hash(
        "cas/abc123",
        DocumentType::Receipt,
        "abc123def456789abcdef",
        test_datetime(),
    )
    .unwrap_or_else(|e| panic!("test: {e:?}"));
    let display = doc.to_string();
    assert!(display.contains("(abc123def456"));
}

#[test]
fn source_document_error_display() {
    assert!((SourceDocumentError::EmptyUri).to_string().contains("empty"));
}

#[test]
fn source_document_display_cuts_twelve_bytes() {
    // "é" takes two bytes: ten ASCII characters and one "é" fill twelve bytes.
    let doc = SourceDocument::with_hash(
        "cas/x",
        DocumentType::Other,
        "abcdefghijéxyz",
        test_datetime(),
    )
    .unwrap_or_else(|e| panic!("test: {e:?}"));
    assert_eq!(doc.to_string(), "[other] cas/x (abcdefghijé)");
}
