use beankeeper::cli::db::accounts::row_to_account;
use beankeeper::cli::db::attachments::{content_digest_hex, hex_encode};
use beankeeper::cli::db::audit::{Actor, EntryStatus};
use beankeeper::cli::db::budgets::{last_day_of_month, monthly_amounts};
use beankeeper::cli::db::companies::validate_slug;
use beankeeper::cli::db::AccountRow;
use beankeeper::cli::error::CliError;
use beankeeper::types::AccountType;
use std::str::FromStr;

#[test]
fn row_to_account_converts_correctly() {
    let row = AccountRow {
        company_slug: "acme".to_string(),
        code: "1000".to_string(),
        name: "Cash".to_string(),
        account_type: "asset".to_string(),
        created_at: "2024-01-01 00:00:00".to_string(),
        default_tax_category: None,
    };
    let account = row_to_account(&row);
    assert!(account.is_ok());
    let account = account.unwrap_or_else(|e| panic!("conversion failed: {}", e.to_string()));
    assert_eq!(account.code().as_str(), "1000");
    assert_eq!(account.name(), "Cash");
    assert_eq!(account.account_type(), AccountType::Asset);
}

#[test]
fn row_to_account_rejects_bad_code_and_type() {
    let mut row = AccountRow {
        company_slug: "acme".to_string(),
        code: "".to_string(),
        name: "Cash".to_string(),
        account_type: "asset".to_string(),
        created_at: "2024-01-01 00:00:00".to_string(),
        default_tax_category: None,
    };
    assert!(matches!(row_to_account(&row), Err(CliError::Validation(_))));
    row.code = "1000".to_string();
    row.account_type = "bogus".to_string();
    assert!(matches!(row_to_account(&row), Err(CliError::Validation(_))));
}

#[test]
fn hex_encode_correctness() {
    assert_eq!(hex_encode(&[0xde, 0xad, 0xbe, 0xef]), "deadbeef");
    assert_eq!(hex_encode(&[0x00, 0xff]), "00ff");
}

#[test]
fn entry_status_parses_round_trip() {
    for s in [EntryStatus::Uncleared, EntryStatus::Cleared, EntryStatus::Reconciled] {
        assert_eq!(EntryStatus::from_str(s.as_str()).ok(), Some(s));
    }
    assert!(EntryStatus::from_str("bogus").is_err());
}

#[test]
fn entry_status_parse_error_message() {
    match EntryStatus::parse("bogus") {
        Err(e) => assert_eq!(e.to_string(), "invalid entry status 'bogus'"),
        Ok(_) => panic!("expected an error"),
    }
}

#[test]
fn last_day_of_month_feb_leap() {
    assert_eq!(last_day_of_month(2024, 2), "2024-02-29");
    assert_eq!(last_day_of_month(2025, 2), "2025-02-28");
    assert_eq!(last_day_of_month(2026, 1), "2026-01-31");
    assert_eq!(last_day_of_month(2026, 4), "2026-04-30");
    assert_eq!(last_day_of_month(2026, 12), "2026-12-31");
}

#[test]
fn last_day_of_month_century_years() {
    assert_eq!(last_day_of_month(1900, 2), "1900-02-28");
    assert_eq!(last_day_of_month(2000, 2), "2000-02-29");
}

#[test]
fn set_annual_budget_distributes_evenly() {
    let rows = monthly_amounts(120_000);
    assert_eq!(rows.len(), 12);
    for amount in &rows {
        assert_eq!(*amount, 10_000);
    }
    let total: i64 = rows.iter().sum();
    assert_eq!(total, 120_000);
}

#[test]
fn set_annual_budget_distributes_remainder() {
    let rows = monthly_amounts(100_000);
    assert_eq!(rows.len(), 12);
    let total: i64 = rows.iter().sum();
    assert_eq!(total, 100_000);
    for amount in &rows[..4] {
        assert_eq!(*amount, 8334);
    }
    for amount in &rows[4..] {
        assert_eq!(*amount, 8333);
    }
}

#[test]
fn monthly_amounts_negative_truncates_toward_zero() {
    // -13 / 12 == -1 and -13 % 12 == -1 in Rust: no month gets the extra unit.
    let rows = monthly_amounts(-13);
    assert_eq!(rows, vec![-1; 12]);
    let total: i64 = rows.iter().sum();
    assert_eq!(total, -12);
}

#[test]
fn slug_validation_rejects_empty() {
    assert!(matches!(validate_slug(""), Err(CliError::Validation(_))));
}

#[test]
fn slug_validation_rejects_uppercase() {
    assert!(matches!(validate_slug("Acme"), Err(CliError::Validation(_))));
}

#[test]
fn slug_validation_rejects_spaces() {
    assert!(matches!(validate_slug("a b"), Err(CliError::Validation(_))));
}

#[test]
fn slug_validation_rejects_leading_hyphen() {
    assert!(matches!(validate_slug("-acme"), Err(CliError::Validation(_))));
}

#[test]
fn slug_validation_accepts_valid() {
    assert!(validate_slug("acme").is_ok());
    assert!(validate_slug("my-company-123").is_ok());
    assert!(validate_slug("a").is_ok());
}

#[test]
fn slug_validation_rejects_too_long() {
    let long = "a".repeat(65);
    assert!(matches!(validate_slug(&long), Err(CliError::Validation(_))));
}

#[test]
fn slug_validation_messages() {
    assert_eq!(validate_slug("").unwrap_err().to_string(), "company slug must be 1-64 characters");
    assert_eq!(
        validate_slug("-acme").unwrap_err().to_string(),
        "company slug must start with a lowercase letter or digit"
    );
    assert_eq!(
        validate_slug("a b").unwrap_err().to_string(),
        "company slug contains invalid character ' '; only lowercase letters, digits, and hyphens are allowed"
    );
}

#[test]
fn actor_resolves_explicit_over_env() {
    let actor = Actor::resolve_with(Some("emergent"), &[Some("from-env".to_string())]);
    assert_eq!(actor.name(), "emergent");
}

#[test]
fn actor_falls_back_to_cli() {
    let actor = Actor::resolve_with(Some("   "), &[None, Some("  ".to_string()), None]);
    assert!(!actor.name().is_empty());
    assert_eq!(actor.name(), "cli");
}

#[test]
fn actor_takes_first_nonblank_candidate_trimmed() {
    let actor = Actor::resolve_with(None, &[Some(" ".to_string()), Some("  alice ".to_string())]);
    assert_eq!(actor.name(), "alice");
}

#[test]
fn hash_and_store_creates_file() {
    let hash = content_digest_hex(b"hello world");
    assert!(!hash.is_empty());
    assert_eq!(hash.len(), 64);
    assert_eq!(hash, "b94d27b9934d3e08a52e52d7da7dabfac484efe37a5380ee9088f7ace2efcde9");
}

#[test]
fn hash_and_store_deduplicates() {
    let hash1 = content_digest_hex(b"duplicate content");
    let hash2 = content_digest_hex(b"duplicate content");
    assert_eq!(hash1, hash2);
    assert_ne!(hash1, content_digest_hex(b"other content"));
}
