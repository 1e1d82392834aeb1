use beankeeper::cli::db::transactions::{build_metadata, check_partner, merge_correlate_into_metadata};
use beankeeper::cli::error::CliError;

#[test]
fn a_merged_partner_cannot_be_correlated_again() {
    for existing in [None, Some("{}"), Some(r#"{"vendor":"x"}"#), Some("INV-7")] {
        let merged = merge_correlate_into_metadata(existing, 12);
        match check_partner("acme", 5, "other", Some(&merged)) {
            Err(CliError::Validation(m)) => assert_eq!(m, "transaction #5 is already correlated"),
            other => panic!("unexpected for {existing:?}: {other:?}"),
        }
    }
}

#[test]
fn a_transaction_posted_with_a_correlation_is_marked() {
    let meta = build_metadata(Some("note"), Some(3)).unwrap();
    assert!(check_partner("acme", 3, "other", Some(&meta)).is_err());
    assert!(check_partner("acme", 3, "other", Some("note")).is_ok());
}
