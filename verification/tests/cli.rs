use beankeeper::cli::output::color_decision;
use beankeeper::cli::{
    require_company, resolve_format, AccountTypeArg, Cli, Command, FormatOptions, OutputFormat,
    PassphraseOptions, VerbosityOptions,
};
use beankeeper::types::AccountType;
use std::path::PathBuf;

/// The arguments `bk [--company C] [--json] [--format F] verify` parse to.
fn verify_cli(company: Option<&str>, json: bool, format: Option<OutputFormat>) -> Cli {
    Cli {
        db: PathBuf::from("beankeeper.db"),
        company: company.map(str::to_string),
        output: FormatOptions { format, json },
        verbosity: VerbosityOptions { verbose: false, quiet: false, no_color: false },
        passphrase: PassphraseOptions { passphrase_fd: None, passphrase_file: None },
        command: Command::Verify,
    }
}

#[test]
fn resolve_format_defaults_to_table() {
    let cli = verify_cli(None, false, None);
    assert_eq!(resolve_format(None, &cli), OutputFormat::Table);
}

#[test]
fn resolve_format_json_flag() {
    let cli = verify_cli(None, true, None);
    assert_eq!(resolve_format(None, &cli), OutputFormat::Json);
}

#[test]
fn resolve_format_global_format() {
    let cli = verify_cli(None, false, Some(OutputFormat::Csv));
    assert_eq!(resolve_format(None, &cli), OutputFormat::Csv);
}

#[test]
fn resolve_format_command_overrides_json_flag() {
    let cli = verify_cli(None, true, None);
    assert_eq!(resolve_format(Some(OutputFormat::Csv), &cli), OutputFormat::Csv);
}

#[test]
fn require_company_returns_slug() {
    let cli = verify_cli(Some("acme"), false, None);
    let result = require_company(&cli);
    assert!(result.is_ok());
    assert_eq!(result.ok(), Some("acme".into()));
}

#[test]
fn require_company_returns_error_when_missing() {
    let cli = verify_cli(None, false, None);
    let result = require_company(&cli);
    assert!(result.is_err());
}

#[test]
fn account_type_arg_converts_to_library_type() {
    assert_eq!(AccountTypeArg::Asset.to_library_type(), AccountType::Asset);
    assert_eq!(AccountTypeArg::Liability.to_library_type(), AccountType::Liability);
    assert_eq!(AccountTypeArg::Equity.to_library_type(), AccountType::Equity);
    assert_eq!(AccountTypeArg::Revenue.to_library_type(), AccountType::Revenue);
    assert_eq!(AccountTypeArg::Expense.to_library_type(), AccountType::Expense);
}

#[test]
fn is_json_with_json_flag() {
    let cli = verify_cli(None, true, None);
    assert!(cli.is_json());
}

#[test]
fn is_json_with_format_json() {
    let cli = verify_cli(None, false, Some(OutputFormat::Json));
    assert!(cli.is_json());
}

#[test]
fn is_json_default_false() {
    let cli = verify_cli(None, false, None);
    assert!(!cli.is_json());
}

#[test]
fn require_company_missing_message() {
    let cli = verify_cli(None, false, None);
    match require_company(&cli) {
        Err(e) => {
            assert_eq!(e.exit_code(), 2);
            assert_eq!(
                e.to_string(),
                "missing required --company flag or BEANKEEPER_COMPANY env var"
            );
        }
        Ok(_) => panic!("expected an error"),
    }
}

#[test]
fn no_color_flag_disables_color() {
    for env in [false, true] {
        for dumb in [false, true] {
            for tty in [false, true] {
                assert!(!color_decision(true, env, dumb, tty));
            }
        }
    }
}

#[test]
fn color_needs_a_terminal_and_no_opt_out() {
    assert!(color_decision(false, false, false, true));
    assert!(!color_decision(false, false, false, false));
    assert!(!color_decision(false, true, false, true));
    assert!(!color_decision(false, false, true, true));
}
