use beankeeper::cli::commands::audit::{
    audit_csv_header_line, audit_csv_line, audit_limit, audit_table_header_line, audit_table_line,
    csv_field, truncate,
};
use beankeeper::cli::commands::export::{export_csv, export_json, ExportedCompany, ExportedTransaction};
use beankeeper::cli::commands::init::{
    consulting_accounts, consulting_transactions, demo_companies, intercompany_pairs,
    personal_accounts, personal_transactions, products_accounts, products_transactions,
    DemoTransaction,
};
use beankeeper::cli::commands::report::{
    build_period_title, build_variance_title, render_report_table, resolve_month_range, ReportKind,
};
use beankeeper::cli::db::{AccountRow, AuditLogRow, BalanceRow, CompanyRow, EntryRow, TransactionRow};
use beankeeper::cli::error::CliError;

// -- report --------------------------------------------------------------

#[test]
fn period_titles() {
    assert_eq!(
        build_period_title("Income Statement", "USD", Some("2025-01-01"), Some("2025-03-31")),
        "Income Statement (2025-01-01 to 2025-03-31) (USD)"
    );
    assert_eq!(build_period_title("Trial Balance", "EUR", Some("2025-01-01"), None), "Trial Balance (from 2025-01-01) (EUR)");
    assert_eq!(build_period_title("Balance Sheet", "USD", None, Some("2025-06-30")), "Balance Sheet (through 2025-06-30) (USD)");
    assert_eq!(build_period_title("Trial Balance", "JPY", None, None), "Trial Balance (JPY)");
}

#[test]
fn variance_titles() {
    assert_eq!(build_variance_title("USD", 2026, 3, 3), "Budget vs. Actual -- 2026 Mar (USD)");
    assert_eq!(build_variance_title("USD", 2026, 1, 12), "Budget vs. Actual -- 2026 (USD)");
    assert_eq!(build_variance_title("EUR", 2026, 2, 5), "Budget vs. Actual -- 2026 Feb-May (EUR)");
}

#[test]
fn month_ranges() {
    assert_eq!(resolve_month_range(Some(4), None, None).ok(), Some((4, 4)));
    assert_eq!(resolve_month_range(None, None, None).ok(), Some((1, 12)));
    assert_eq!(resolve_month_range(None, Some(3), Some(6)).ok(), Some((3, 6)));
    match resolve_month_range(Some(13), None, None) {
        Err(CliError::Validation(m)) => assert_eq!(m, "month must be 1-12, got 13"),
        _ => panic!("expected a validation error"),
    }
    match resolve_month_range(None, Some(0), None) {
        Err(CliError::Validation(m)) => assert_eq!(m, "from/to months must be 1-12"),
        _ => panic!("expected a validation error"),
    }
    match resolve_month_range(None, Some(6), Some(3)) {
        Err(CliError::Validation(m)) => assert_eq!(m, "from month (6) must be <= to month (3)"),
        _ => panic!("expected a validation error"),
    }
}

fn balance(code: &str, ty: &str, d: i64, c: i64) -> BalanceRow {
    BalanceRow { code: code.into(), name: code.into(), account_type: ty.into(), debit_total: d, credit_total: c }
}

#[test]
fn report_table_net_income_and_loss() {
    let rows = vec![balance("4000", "revenue", 0, 12_000), balance("5000", "expense", 2_000, 0)];
    let out = render_report_table("Income Statement (USD)", &rows, 2, false, ReportKind::IncomeStatement);
    assert!(out.starts_with("Income Statement (USD)\n\n"));
    assert!(out.ends_with("Totals:  DR 20.00  CR 120.00\nNet Income: 100.00"));
    let rows = vec![balance("4000", "revenue", 0, 1_000), balance("5000", "expense", 3_000, 0)];
    let out = render_report_table("IS", &rows, 2, false, ReportKind::IncomeStatement);
    assert!(out.ends_with("Net Loss: 20.00"));
    let out = render_report_table("BS", &rows, 2, false, ReportKind::BalanceCheck);
    assert!(out.ends_with("[!!] UNBALANCED (difference: 20.00)"));
}

// -- export --------------------------------------------------------------

fn txn(id: i64, metadata: Option<&str>) -> TransactionRow {
    TransactionRow {
        id,
        company_slug: "acme".into(),
        description: "Sale, big".into(),
        metadata: metadata.map(str::to_string),
        currency: "USD".into(),
        date: "2025-03-15".into(),
        posted_at: "2025-03-15 10:00:00".into(),
        reference: None,
    }
}

fn entry(code: &str, direction: &str, amount: i64) -> EntryRow {
    EntryRow {
        id: 1,
        transaction_id: 1,
        account_code: code.into(),
        company_slug: "acme".into(),
        direction: direction.into(),
        amount,
        memo: None,
        tax_category: None,
    }
}

#[test]
fn export_csv_sections() {
    let companies = vec![CompanyRow {
        slug: "acme".into(),
        name: "Acme".into(),
        description: None,
        created_at: "2025-01-01".into(),
    }];
    let accounts = vec![AccountRow {
        company_slug: "acme".into(),
        code: "1000".into(),
        name: "Cash".into(),
        account_type: "asset".into(),
        created_at: "2025-01-01".into(),
        default_tax_category: None,
    }];
    let transactions = vec![ExportedTransaction {
        company_slug: "acme".into(),
        transaction: txn(1, None),
        entries: vec![entry("1000", "debit", 500), entry("4000", "credit", 500)],
    }];
    let out = export_csv(&companies, &accounts, &transactions).unwrap();
    assert_eq!(
        out,
        "# Companies\nslug,name,description,created_at\nacme,Acme,,2025-01-01\n\n# Accounts\ncompany_slug,code,name,type\nacme,1000,Cash,asset\n\n# Entries\ncompany_slug,transaction_id,date,description,metadata,currency,account_code,direction,amount\nacme,1,2025-03-15,\"Sale, big\",,USD,1000,debit,500\nacme,1,2025-03-15,\"Sale, big\",,USD,4000,credit,500\n"
    );
}

#[test]
fn export_json_gathers_companies() {
    let company = ExportedCompany {
        company: CompanyRow { slug: "acme".into(), name: "Acme".into(), description: None, created_at: "2025-01-01".into() },
        accounts: vec![],
        transactions: vec![ExportedTransaction {
            company_slug: "acme".into(),
            transaction: txn(9, Some("m")),
            entries: vec![entry("1000", "debit", 5)],
        }],
    };
    let export = export_json(&[company]);
    assert_eq!(export.version, 1);
    assert_eq!(export.companies[0].slug, "acme");
    assert_eq!(export.companies[0].transactions[0].id, 9);
    assert_eq!(export.companies[0].transactions[0].metadata.as_deref(), Some("m"));
    assert_eq!(export.companies[0].transactions[0].entries[0].amount, 5);
}

// -- init ----------------------------------------------------------------

fn balanced(t: &DemoTransaction) -> bool {
    let debits: i64 = t.entries.iter().filter(|e| e.direction == "debit").map(|e| e.amount).sum();
    let credits: i64 = t.entries.iter().filter(|e| e.direction == "credit").map(|e| e.amount).sum();
    debits == credits && debits > 0
}

#[test]
fn demo_data_populates_and_balances() {
    assert_eq!(demo_companies().len(), 3);
    assert_eq!(consulting_accounts().len(), 14);
    assert_eq!(products_accounts().len(), 10);
    assert_eq!(personal_accounts().len(), 13);
    let mut all: Vec<DemoTransaction> = Vec::new();
    all.extend(consulting_transactions());
    all.extend(products_transactions());
    all.extend(personal_transactions());
    for (a, b) in intercompany_pairs() {
        all.push(a);
        all.push(b);
    }
    for slug in ["acme-consulting", "acme-products", "personal"] {
        let mut debits = 0i64;
        let mut credits = 0i64;
        for t in all.iter().filter(|t| t.company == slug) {
            assert!(balanced(t), "{} unbalanced", t.reference);
            for e in &t.entries {
                if e.direction == "debit" {
                    debits += e.amount;
                } else {
                    credits += e.amount;
                }
            }
        }
        assert_eq!(debits, credits, "{slug}: trial balance must be balanced");
        assert!(debits > 0, "{slug}: should have non-zero balances");
    }
}

#[test]
fn demo_intercompany_correlations_are_linked() {
    let pairs = intercompany_pairs();
    assert_eq!(pairs.len(), 4);
    for (first, second) in &pairs {
        assert_ne!(first.company, second.company);
        assert_eq!(first.date, second.date);
        assert!(first.reference.starts_with("IC-") && second.reference.starts_with("IC-"));
    }
}

// -- audit ---------------------------------------------------------------

#[test]
fn audit_csv_field_quoting() {
    assert_eq!(csv_field("plain"), "plain");
    assert_eq!(csv_field("a,b"), "\"a,b\"");
    assert_eq!(csv_field("say \"hi\""), "\"say \"\"hi\"\"\"");
    assert_eq!(csv_field("a\nb"), "\"a\nb\"");
}

#[test]
fn audit_truncate() {
    assert_eq!(truncate("short", 14), "short");
    assert_eq!(truncate("abcdefghij", 5), "abcd…");
    assert_eq!(truncate("abc", 0), "…");
}

#[test]
fn audit_lines() {
    let row = AuditLogRow {
        id: 3,
        changed_at: "2025-01-01 00:00:00".into(),
        actor: "a-very-long-actor-name".into(),
        company_slug: None,
        entity: "entry".into(),
        entity_id: "12".into(),
        action: "status_change".into(),
        before: None,
        after: None,
    };
    assert_eq!(audit_csv_line(&row), "3,2025-01-01 00:00:00,a-very-long-actor-name,,entry,12,status_change");
    assert_eq!(
        audit_table_line(&row),
        format!("{:<20}  {:<14}  {:<12}  {:<14}  {:<10}  {}", "2025-01-01 00:00:00", "a-very-long-a…", "entry", "status_change", "12", "-")
    );
    assert_eq!(
        audit_table_header_line(),
        format!("{:<20}  {:<14}  {:<12}  {:<14}  {:<10}  COMPANY", "CHANGED AT", "ACTOR", "ENTITY", "ACTION", "ID")
    );
    assert_eq!(audit_limit(-5), 0);
    assert_eq!(audit_limit(20), 20);
    assert_eq!(audit_csv_header_line(), "id,changed_at,actor,company,entity,entity_id,action");
}
