use beankeeper::cli::db::{
    AccountRow, AccountWithBalanceRow, BalanceRow, CompanyRow, OrphanedCorrelation,
    TaxSummaryRow, TransactionRow,
};
use beankeeper::cli::output::csv::{
    normal_balance_for, render_account_balance, render_accounts, render_accounts_with_balances,
    render_companies, render_orphaned_correlations, render_tax_summary, render_transactions,
    render_trial_balance,
};

#[test]
fn csv_render_companies_empty() {
    let result = render_companies(&[]);
    assert!(result.is_ok());
    let csv_str = result.unwrap_or_default();
    // Should have header row only
    assert_eq!(csv_str.trim(), "slug,name,description,created_at");
}

#[test]
fn csv_render_companies_single() {
    let rows = vec![CompanyRow {
        slug: "acme".into(),
        name: "Acme Corp".into(),
        description: None,
        created_at: "2025-01-01".into(),
    }];
    let csv_str = render_companies(&rows).unwrap_or_default();
    assert!(csv_str.contains("slug,name,description,created_at"));
    assert!(csv_str.contains("acme,Acme Corp,,2025-01-01"));
}

#[test]
fn render_companies_quoting() {
    let rows = vec![CompanyRow {
        slug: "acme".into(),
        name: "Acme, Corp".into(), // comma in name
        description: Some("A company".into()),
        created_at: "2025-01-01".into(),
    }];
    let csv_str = render_companies(&rows).unwrap_or_default();
    // The name should be quoted because it contains a comma
    assert!(csv_str.contains("\"Acme, Corp\""));
}

#[test]
fn render_accounts_has_normal_balance() {
    let rows = vec![AccountRow {
        company_slug: "acme".into(),
        code: "1000".into(),
        name: "Cash".into(),
        account_type: "asset".into(),
        created_at: "2025-01-01".into(),
        default_tax_category: None,
    }];
    let csv_str = render_accounts(&rows).unwrap_or_default();
    assert!(csv_str.contains("code,name,type,normal_balance"));
    assert!(csv_str.contains("1000,Cash,asset,debit"));
}

#[test]
fn render_accounts_revenue_credit() {
    let rows = vec![AccountRow {
        company_slug: "acme".into(),
        code: "4000".into(),
        name: "Revenue".into(),
        account_type: "revenue".into(),
        created_at: "2025-01-01".into(),
        default_tax_category: None,
    }];
    let csv_str = render_accounts(&rows).unwrap_or_default();
    assert!(csv_str.contains("4000,Revenue,revenue,credit"));
}

#[test]
fn render_transactions_empty() {
    let csv_str = render_transactions(&[]).unwrap_or_default();
    assert_eq!(csv_str.trim(), "id,date,description,metadata,currency,reference");
}

#[test]
fn render_transactions_with_metadata() {
    let rows = vec![TransactionRow {
        id: 1,
        company_slug: "acme".into(),
        description: "Sale".into(),
        metadata: Some("INV-001".into()),
        currency: "USD".into(),
        date: "2025-03-15".into(),
        posted_at: "2025-03-15T10:00:00".into(),
        reference: None,
    }];
    let csv_str = render_transactions(&rows).unwrap_or_default();
    assert!(csv_str.contains("1,2025-03-15,Sale,INV-001,USD"));
}

#[test]
fn render_transactions_without_metadata() {
    let rows = vec![TransactionRow {
        id: 1,
        company_slug: "acme".into(),
        description: "Sale".into(),
        metadata: None,
        currency: "USD".into(),
        date: "2025-03-15".into(),
        posted_at: "2025-03-15T10:00:00".into(),
        reference: None,
    }];
    let csv_str = render_transactions(&rows).unwrap_or_default();
    assert!(csv_str.contains("1,2025-03-15,Sale,,USD"));
}

#[test]
fn render_trial_balance_csv() {
    let rows = vec![
        BalanceRow {
            code: "1000".into(),
            name: "Cash".into(),
            account_type: "asset".into(),
            debit_total: 10000,
            credit_total: 0,
        },
        BalanceRow {
            code: "4000".into(),
            name: "Revenue".into(),
            account_type: "revenue".into(),
            debit_total: 0,
            credit_total: 10000,
        },
    ];
    let csv_str = render_trial_balance(&rows).unwrap_or_default();
    assert!(csv_str.contains("code,name,type,debit_total,credit_total"));
    assert!(csv_str.contains("1000,Cash,asset,10000,0"));
    assert!(csv_str.contains("4000,Revenue,revenue,0,10000"));
}

#[test]
fn render_trial_balance_empty() {
    let csv_str = render_trial_balance(&[]).unwrap_or_default();
    assert_eq!(csv_str.trim(), "code,name,type,debit_total,credit_total");
}

#[test]
fn render_account_balance_csv() {
    let row = BalanceRow {
        code: "1000".into(),
        name: "Cash".into(),
        account_type: "asset".into(),
        debit_total: 15000,
        credit_total: 5000,
    };
    let csv_str = render_account_balance(&row, "USD").unwrap_or_default();
    assert!(csv_str.contains("code,name,type,debit_total,credit_total,currency"));
    assert!(csv_str.contains("1000,Cash,asset,15000,5000,USD"));
}

#[test]
fn csv_exact_document_with_quotes_and_newlines() {
    let rows = vec![CompanyRow {
        slug: "acme".into(),
        name: "Say \"hi\"".into(),
        description: Some("two\nlines".into()),
        created_at: "2025-01-01".into(),
    }];
    assert_eq!(
        render_companies(&rows).unwrap(),
        "slug,name,description,created_at\nacme,\"Say \"\"hi\"\"\",\"two\nlines\",2025-01-01\n"
    );
}

#[test]
fn csv_other_listings() {
    let accounts = vec![AccountWithBalanceRow {
        code: "5000".into(),
        name: "Rent".into(),
        account_type: "expense".into(),
        default_tax_category: Some("rent".into()),
        debit_total: -7,
        credit_total: 0,
    }];
    assert_eq!(
        render_accounts_with_balances(&accounts).unwrap(),
        "code,name,type,normal_balance,debit_total,credit_total\n5000,Rent,expense,debit,-7,0\n"
    );
    let orphans = vec![OrphanedCorrelation {
        transaction_id: 3,
        company_slug: "acme".into(),
        description: "Loan".into(),
        date: "2025-01-02".into(),
        partner_id: 9,
    }];
    assert_eq!(
        render_orphaned_correlations(&orphans).unwrap(),
        "transaction_id,company,description,date,partner_id\n3,acme,Loan,2025-01-02,9\n"
    );
    let tax = vec![TaxSummaryRow { tax_category: "rent".into(), debit_total: 500, credit_total: 0 }];
    assert_eq!(
        render_tax_summary(&tax).unwrap(),
        "tax_category,debit_total,credit_total\nrent,500,0\n"
    );
}

#[test]
fn csv_normal_balance_for_all_types() {
    assert_eq!(normal_balance_for("asset"), "debit");
    assert_eq!(normal_balance_for("expense"), "debit");
    assert_eq!(normal_balance_for("liability"), "credit");
    assert_eq!(normal_balance_for("equity"), "credit");
    assert_eq!(normal_balance_for("revenue"), "credit");
    assert_eq!(normal_balance_for("unknown_type"), "unknown");
}
