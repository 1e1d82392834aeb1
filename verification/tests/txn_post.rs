use beankeeper::cli::commands::txn::{apply_tax_categories, build_post_entries, parse_tax_args};
use beankeeper::cli::commands::txn::{parse_txn_date, validate_post};
use beankeeper::cli::db::accounts::validate_account_type;
use beankeeper::cli::db::transactions::reference_conflict;
use beankeeper::cli::db::{ConflictStrategy, PostResult};
use beankeeper::cli::commands::import_ofx::import_reference_check;
use beankeeper::cli::error::CliError;
use beankeeper::error::BeanError;
use beankeeper::journal::TransactionError;
use beankeeper::types::{Account, AccountCode, AccountType, Currency, Date, EntryError};

fn account(code: &str, name: &str, t: AccountType) -> Account {
    Account::new(AccountCode::new(code).unwrap(), name, t)
}

fn args(items: &[(&str, i64, Option<&str>)]) -> Vec<(String, i64, Option<String>)> {
    items
        .iter()
        .map(|(c, a, m)| (c.to_string(), *a, m.map(str::to_string)))
        .collect()
}

#[test]
fn post_date_is_read_as_year_month_day() {
    let d = parse_txn_date("2025-03-15").unwrap();
    assert_eq!((d.year(), d.month(), d.day()), (2025, 3, 15));
}

#[test]
fn post_date_rejects_impossible_dates() {
    match parse_txn_date("2025-02-30") {
        Err(CliError::Validation(m)) => assert!(m.starts_with("invalid date '2025-02-30': ")),
        other => panic!("unexpected: {other:?}"),
    }
    assert!(parse_txn_date("15/03/2025").is_err());
}

#[test]
fn balanced_post_is_accepted_with_memo() {
    let date = Date::from_ymd_opt(2025, 1, 15).unwrap();
    let cash = account("1000", "Cash", AccountType::Asset);
    let rent = account("5000", "Rent", AccountType::Expense);
    let debits = args(&[("5000", 250_000, Some("January"))]);
    let credits = args(&[("1000", 250_000, None)]);
    let t = validate_post(
        date,
        "Office rent",
        Some("INV-1"),
        Currency::USD,
        &debits,
        &[rent],
        &credits,
        &[cash],
    )
    .unwrap();
    assert_eq!(t.description(), "Office rent");
    assert_eq!(t.metadata(), Some("INV-1"));
    assert_eq!(t.entries().len(), 2);
    assert_eq!(t.entries()[0].memo(), Some("January"));
}

#[test]
fn unbalanced_post_is_refused_with_both_totals() {
    let date = Date::from_ymd_opt(2025, 1, 15).unwrap();
    let cash = account("1000", "Cash", AccountType::Asset);
    let rent = account("5000", "Rent", AccountType::Expense);
    let debits = args(&[("5000", 300, None)]);
    let credits = args(&[("1000", 200, None)]);
    match validate_post(date, "x", None, Currency::USD, &debits, &[rent], &credits, &[cash]) {
        Err(CliError::Bean(BeanError::Transaction(TransactionError::Unbalanced {
            total_debits,
            total_credits,
        }))) => {
            assert_eq!(total_debits.minor_units(), 300);
            assert_eq!(total_credits.minor_units(), 200);
        }
        other => panic!("unexpected: {other:?}"),
    }
}

#[test]
fn zero_amount_is_refused_before_posting() {
    let date = Date::from_ymd_opt(2025, 1, 15).unwrap();
    let cash = account("1000", "Cash", AccountType::Asset);
    let rent = account("5000", "Rent", AccountType::Expense);
    let debits = args(&[("5000", 0, None)]);
    let credits = args(&[("1000", 0, None)]);
    match validate_post(date, "x", None, Currency::USD, &debits, &[rent], &credits, &[cash]) {
        Err(CliError::Bean(BeanError::Entry(EntryError::ZeroAmount))) => {}
        other => panic!("unexpected: {other:?}"),
    }
}

#[test]
fn single_entry_post_is_refused() {
    let date = Date::from_ymd_opt(2025, 1, 15).unwrap();
    let cash = account("1000", "Cash", AccountType::Asset);
    let debits = args(&[("1000", 10, None)]);
    match validate_post(date, "x", None, Currency::USD, &debits, &[cash], &[], &[]) {
        Err(CliError::Bean(BeanError::Transaction(TransactionError::SingleEntry))) => {}
        other => panic!("unexpected: {other:?}"),
    }
}

#[test]
fn account_type_is_lowercased_and_checked() {
    assert_eq!(validate_account_type("Asset").unwrap(), "asset");
    assert_eq!(validate_account_type("EXPENSE").unwrap(), "expense");
    match validate_account_type("income") {
        Err(CliError::Validation(m)) => assert_eq!(
            m,
            "invalid account type 'income'; expected one of: asset, liability, equity, revenue, expense"
        ),
        other => panic!("unexpected: {other:?}"),
    }
}

#[test]
fn tax_arguments_split_at_first_equals() {
    let pairs = parse_tax_args(&["5300=payroll".to_string(), "2800=a=b".to_string()]).unwrap();
    assert_eq!(pairs, vec![
        ("5300".to_string(), "payroll".to_string()),
        ("2800".to_string(), "a=b".to_string()),
    ]);
    match parse_tax_args(&["5300".to_string()]) {
        Err(CliError::Usage(m)) => {
            assert_eq!(m, "invalid tax format '5300': expected 'account_code=category'")
        }
        other => panic!("unexpected: {other:?}"),
    }
}

#[test]
fn explicit_tax_wins_over_account_default() {
    let debits = args(&[("5300", 5000, None), ("5100", 100, Some("licence"))]);
    let credits = args(&[("1000", 5100, None)]);
    let mut entries = build_post_entries(&debits, &credits);
    let pairs = vec![
        ("5300".to_string(), "wages".to_string()),
        ("5300".to_string(), "payroll".to_string()),
    ];
    let defaults = vec![Some("salary".to_string()), Some("software".to_string()), None];
    apply_tax_categories(&mut entries, &pairs, &defaults);
    assert_eq!(entries[0].tax_category.as_deref(), Some("payroll"));
    assert_eq!(entries[1].tax_category.as_deref(), Some("software"));
    assert_eq!(entries[1].memo.as_deref(), Some("licence"));
    assert_eq!(entries[2].tax_category, None);
    assert_eq!(entries[2].direction, "credit");
}

#[test]
fn reference_conflict_decides_by_lookup() {
    assert!(reference_conflict(ConflictStrategy::Error, "r1", None).is_none());
    assert!(matches!(
        reference_conflict(ConflictStrategy::Skip, "r1", Some(7)),
        Some(Ok(PostResult::Skipped(7)))
    ));
    match reference_conflict(ConflictStrategy::Error, "r1", Some(7)) {
        Some(Err(CliError::Validation(m))) => {
            assert_eq!(m, "transaction with reference 'r1' already exists (id: 7)")
        }
        other => panic!("unexpected {other:?}"),
    }
}

#[test]
fn import_reference_check_outcomes() {
    assert!(matches!(import_reference_check(ConflictStrategy::Skip, "r", Ok(None)), Ok(Ok(false))));
    assert!(matches!(import_reference_check(ConflictStrategy::Skip, "r", Ok(Some(3))), Ok(Ok(true))));
    assert!(matches!(
        import_reference_check(ConflictStrategy::Error, "r", Ok(Some(3))),
        Err(CliError::Validation(_))
    ));
    assert!(matches!(
        import_reference_check(ConflictStrategy::Skip, "r", Err("db".to_string())),
        Ok(Err(m)) if m == "db"
    ));
}
