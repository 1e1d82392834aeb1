use beankeeper::cli::error::CliError;
use beankeeper::cli::passphrase::{
    confirm_new_passphrase, passphrase_from_command_output, passphrase_from_text,
    passphrase_source, prompted_passphrase, PassphraseSource,
};
use beankeeper::cli::AccountTypeArg;

#[test]
fn passphrase_sources_in_priority_order() {
    assert_eq!(passphrase_source(Some(3), true, Some("pass"), true), PassphraseSource::Fd(3));
    assert_eq!(passphrase_source(None, true, Some("pass"), true), PassphraseSource::File);
    assert_eq!(passphrase_source(None, false, Some("pass"), true), PassphraseSource::Command);
    assert_eq!(passphrase_source(None, false, Some(""), true), PassphraseSource::Prompt);
    assert_eq!(passphrase_source(None, false, None, false), PassphraseSource::Unencrypted);
}

#[test]
fn passphrase_text_loses_trailing_newlines_only() {
    assert_eq!(passphrase_from_text("secret\n\n", "file x").unwrap(), "secret");
    assert_eq!(passphrase_from_text(" secret \n", "file x").unwrap(), " secret ");
    match passphrase_from_text("\n", "passphrase file x") {
        Err(CliError::Usage(m)) => assert_eq!(m, "passphrase file x is empty"),
        other => panic!("unexpected: {other:?}"),
    }
}

#[test]
fn passphrase_command_output_must_not_be_empty() {
    assert_eq!(passphrase_from_command_output("hunter2\n").unwrap(), "hunter2");
    match passphrase_from_command_output("\n\n") {
        Err(CliError::Usage(m)) => assert_eq!(m, "passphrase command produced empty output"),
        other => panic!("unexpected: {other:?}"),
    }
}

#[test]
fn prompted_and_confirmed_passphrases() {
    assert_eq!(prompted_passphrase("abc".to_string()).unwrap(), "abc");
    match prompted_passphrase(String::new()) {
        Err(CliError::Usage(m)) => assert_eq!(m, "passphrase cannot be empty"),
        other => panic!("unexpected: {other:?}"),
    }
    assert_eq!(confirm_new_passphrase("abc".to_string(), "abc").unwrap(), "abc");
    match confirm_new_passphrase("abc".to_string(), "abd") {
        Err(CliError::Validation(m)) => assert_eq!(m, "passphrases do not match"),
        other => panic!("unexpected: {other:?}"),
    }
}

#[test]
fn account_type_arguments_have_lowercase_names() {
    assert_eq!(AccountTypeArg::Asset.lowercase_name(), "asset");
    assert_eq!(AccountTypeArg::Liability.lowercase_name(), "liability");
    assert_eq!(AccountTypeArg::Expense.lowercase_name(), "expense");
}
