use beankeeper::cli::output::json::{meta_with_timestamp, render_error};
use beankeeper::cli::error::CliError;
use beankeeper::error::BeanError;
use beankeeper::journal::TransactionError;
use beankeeper::types::EntryError;
use std::io;

#[test]
fn exit_codes_are_correct() {
    assert_eq!(CliError::Usage("bad args".into()).exit_code(), 2);
    assert_eq!(CliError::Validation("unbalanced".into()).exit_code(), 3);
    assert_eq!(CliError::Database("corrupt".into()).exit_code(), 4);
    assert_eq!(CliError::NotFound("missing".into()).exit_code(), 5);
    assert_eq!(CliError::General("oops".into()).exit_code(), 1);
    assert_eq!(CliError::Io(io::Error::new(io::ErrorKind::NotFound, "gone")).exit_code(), 1);
}

#[test]
fn display_shows_message() {
    let err = CliError::Usage("missing --company flag".into());
    assert_eq!(err.to_string(), "missing --company flag");
}

#[test]
fn display_sqlite_includes_prefix() {
    let err = CliError::Sqlite(rusqlite::Error::QueryReturnedNoRows);
    let display = err.to_string();
    assert!(display.starts_with("database error:"));
}

#[test]
fn display_io_includes_prefix() {
    let err = CliError::Io(io::Error::new(io::ErrorKind::NotFound, "file missing"));
    let display = err.to_string();
    assert!(display.starts_with("I/O error:"));
}

#[test]
fn from_rusqlite_error() {
    let err: CliError = rusqlite::Error::QueryReturnedNoRows.into();
    assert_eq!(err.exit_code(), 4);
}

#[test]
fn from_io_error() {
    let err: CliError = io::Error::new(io::ErrorKind::BrokenPipe, "broken").into();
    assert_eq!(err.exit_code(), 1);
}

#[test]
fn from_entry_error() {
    let err: CliError = EntryError::ZeroAmount.into();
    assert_eq!(err.exit_code(), 3);
}

#[test]
fn from_transaction_error() {
    let err: CliError = TransactionError::NoEntries.into();
    assert_eq!(err.exit_code(), 3);
}

#[test]
fn from_bean_error() {
    let bean_err = BeanError::Entry(EntryError::ZeroAmount);
    let err: CliError = bean_err.into();
    assert_eq!(err.exit_code(), 3);
}

#[test]
fn display_io_carries_io_message() {
    let err = CliError::Io(io::Error::new(io::ErrorKind::NotFound, "file missing"));
    assert_eq!(err.to_string(), "I/O error: file missing");
}

#[test]
fn display_bean_error_delegates() {
    let err: CliError = BeanError::Entry(EntryError::ZeroAmount).into();
    assert_eq!(err.to_string(), BeanError::Entry(EntryError::ZeroAmount).to_string());
}

#[test]
fn error_code_returns_correct_strings() {
    assert_eq!(CliError::Usage("x".into()).error_code(), "USAGE");
    assert_eq!(CliError::Validation("x".into()).error_code(), "VALIDATION");
    assert_eq!(CliError::Database("x".into()).error_code(), "DATABASE");
    assert_eq!(CliError::NotFound("x".into()).error_code(), "NOT_FOUND");
    assert_eq!(CliError::General("x".into()).error_code(), "GENERAL");
    assert_eq!(
        CliError::Io(std::io::Error::new(std::io::ErrorKind::NotFound, "x")).error_code(),
        "IO"
    );
}

#[test]
fn library_errors_report_validation_code() {
    let e = CliError::from(EntryError::ZeroAmount);
    assert_eq!(e.error_code(), "VALIDATION");
}

#[test]
fn error_envelope_carries_code_and_message() {
    let meta = meta_with_timestamp("txn.post", Some("acme"), "2025-01-01T00:00:00Z".to_string());
    let env = render_error::<()>(&CliError::NotFound("account '9' not found".into()), meta);
    assert!(!env.ok);
    assert!(env.data.is_none());
    assert_eq!(env.meta.command, "txn.post");
    let err = env.error.unwrap();
    assert_eq!(err.code, "NOT_FOUND");
    assert_eq!(err.message, "account '9' not found");
}
