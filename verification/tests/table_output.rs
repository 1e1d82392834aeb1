use beankeeper::cli::db::{
    AccountRow, AttachmentRow, BalanceRow, CompanyRow, EntryRow, OrphanedCorrelation, TaxSummaryRow,
    TransactionRow,
};
use beankeeper::cli::output::table::{
    capitalize_first, format_amount, format_with_commas, normal_balance_label,
    render_account_balance, render_accounts, render_attachments, render_companies,
    render_tax_summary, render_transaction_detail, render_transaction_list,
    render_trial_balance, styled, AccountBalanceParams, TextStyle,
};
use beankeeper::cli::output::table::{
    render_companies_at, render_orphaned_correlations_at, render_trial_balance_at,
};

// -- format_amount --

#[test]
fn format_amount_cents() {
    assert_eq!(format_amount(12345, 2), "123.45");
}

#[test]
fn format_amount_zero_cents() {
    assert_eq!(format_amount(0, 2), "0.00");
}

#[test]
fn format_amount_no_decimals() {
    assert_eq!(format_amount(5000, 0), "5,000");
}

#[test]
fn format_amount_three_decimals() {
    assert_eq!(format_amount(1_234_567, 3), "1,234.567");
}

#[test]
fn format_amount_with_commas() {
    assert_eq!(format_amount(123_456_789, 2), "1,234,567.89");
}

#[test]
fn format_amount_negative() {
    assert_eq!(format_amount(-5000, 2), "-50.00");
}

#[test]
fn format_amount_small() {
    assert_eq!(format_amount(1, 2), "0.01");
}

#[test]
fn format_amount_extremes() {
    assert_eq!(format_amount(i64::MIN, 2), "-92,233,720,368,547,758.08");
    assert_eq!(format_amount(-5, 2), "-0.05");
}

// -- format_with_commas --

#[test]
fn commas_small_numbers() {
    assert_eq!(format_with_commas(0), "0");
    assert_eq!(format_with_commas(1), "1");
    assert_eq!(format_with_commas(999), "999");
}

#[test]
fn commas_thousands() {
    assert_eq!(format_with_commas(1000), "1,000");
    assert_eq!(format_with_commas(1_000_000), "1,000,000");
    assert_eq!(format_with_commas(12_345_678), "12,345,678");
}

// -- normal_balance_label --

#[test]
fn normal_balance_debit_types() {
    assert_eq!(normal_balance_label("asset"), "Debit");
    assert_eq!(normal_balance_label("expense"), "Debit");
}

#[test]
fn normal_balance_credit_types() {
    assert_eq!(normal_balance_label("liability"), "Credit");
    assert_eq!(normal_balance_label("equity"), "Credit");
    assert_eq!(normal_balance_label("revenue"), "Credit");
}

// -- capitalize_first --

#[test]
fn capitalize_first_works() {
    assert_eq!(capitalize_first("asset"), "Asset");
    assert_eq!(capitalize_first(""), "");
    assert_eq!(capitalize_first("a"), "A");
}

// -- styled --

#[test]
fn styled_wraps_only_with_color() {
    assert_eq!(styled("x", TextStyle::Bold, false), "x");
    assert_eq!(styled("x", TextStyle::Bold, true), "\u{1b}[1mx\u{1b}[0m");
    assert_eq!(styled("x", TextStyle::Cyan, true), "\u{1b}[36mx\u{1b}[0m");
    assert_eq!(styled("x", TextStyle::RedBold, true), "\u{1b}[1m\u{1b}[31mx\u{1b}[0m");
}

// -- render_companies --

#[test]
fn table_render_companies_empty() {
    assert_eq!(render_companies(&[], false), "No companies found.");
}

#[test]
fn table_render_companies_single() {
    let rows = vec![CompanyRow {
        slug: "acme".into(),
        name: "Acme Corp".into(),
        description: None,
        created_at: "2025-01-01 00:00:00".into(),
    }];
    let out = render_companies(&rows, false);
    assert!(out.contains("acme"));
    assert!(out.contains("Acme Corp"));
    assert!(out.contains("1 company"));
}

#[test]
fn render_companies_plural() {
    let rows = vec![
        CompanyRow {
            slug: "acme".into(),
            name: "Acme Corp".into(),
            description: None,
            created_at: "2025-01-01".into(),
        },
        CompanyRow {
            slug: "globex".into(),
            name: "Globex Inc".into(),
            description: Some("Global exports".into()),
            created_at: "2025-02-01".into(),
        },
    ];
    let out = render_companies(&rows, false);
    assert!(out.contains("2 companies"));
}

// -- render_accounts --

#[test]
fn render_accounts_empty() {
    assert_eq!(render_accounts(&[], false), "No accounts found.");
}

#[test]
fn render_accounts_shows_normal_balance() {
    let rows = vec![AccountRow {
        company_slug: "acme".into(),
        code: "1000".into(),
        name: "Cash".into(),
        account_type: "asset".into(),
        created_at: "2025-01-01".into(),
        default_tax_category: None,
    }];
    let out = render_accounts(&rows, false);
    assert!(out.contains("1000"));
    assert!(out.contains("Cash"));
    assert!(out.contains("Asset"));
    assert!(out.contains("Debit"));
    assert!(out.contains("1 account"));
}

// -- render_transaction_list --

#[test]
fn render_transaction_list_empty() {
    assert_eq!(render_transaction_list(&[], false), "No transactions found.");
}

#[test]
fn render_transaction_list_shows_id_and_date() {
    let rows = vec![TransactionRow {
        id: 1,
        company_slug: "acme".into(),
        description: "Test sale".into(),
        metadata: None,
        currency: "USD".into(),
        date: "2025-03-15".into(),
        posted_at: "2025-03-15 10:00:00".into(),
        reference: None,
    }];
    let out = render_transaction_list(&rows, false);
    assert!(out.contains('1'));
    assert!(out.contains("2025-03-15"));
    assert!(out.contains("Test sale"));
    assert!(out.contains("1 transaction"));
}

// -- render_transaction_detail --

fn entry(id: i64, txn: i64, code: &str, direction: &str, amount: i64) -> EntryRow {
    EntryRow {
        id,
        transaction_id: txn,
        account_code: code.into(),
        company_slug: "acme".into(),
        direction: direction.into(),
        amount,
        memo: None,
        tax_category: None,
    }
}

#[test]
fn render_transaction_detail_balanced() {
    let txn = TransactionRow {
        id: 42,
        company_slug: "acme".into(),
        description: "Cash sale".into(),
        metadata: Some("INV-001".into()),
        currency: "USD".into(),
        date: "2025-03-15".into(),
        posted_at: "2025-03-15 10:00:00".into(),
        reference: None,
    };
    let entries = vec![entry(1, 42, "1000", "debit", 5000), entry(2, 42, "4000", "credit", 5000)];
    let out = render_transaction_detail(&txn, &entries, 2, false);
    assert!(out.contains("42"));
    assert!(out.contains("Cash sale"));
    assert!(out.contains("INV-001"));
    assert!(out.contains("DR"));
    assert!(out.contains("CR"));
    assert!(out.contains("50.00"));
    assert!(out.contains("[ok] BALANCED"));
}

#[test]
fn render_transaction_detail_unbalanced() {
    let txn = TransactionRow {
        id: 1,
        company_slug: "acme".into(),
        description: "Bad".into(),
        metadata: None,
        currency: "USD".into(),
        date: "2025-03-15".into(),
        posted_at: "2025-03-15 10:00:00".into(),
        reference: None,
    };
    let entries = vec![entry(1, 1, "1000", "debit", 5000), entry(2, 1, "4000", "credit", 3000)];
    let out = render_transaction_detail(&txn, &entries, 2, false);
    assert!(out.contains("[!!] UNBALANCED"));
}

#[test]
fn render_transaction_detail_exact_lines() {
    let txn = TransactionRow {
        id: 7,
        company_slug: "acme".into(),
        description: "Rent".into(),
        metadata: None,
        currency: "USD".into(),
        date: "2025-01-05".into(),
        posted_at: "2025-01-05 09:00:00".into(),
        reference: Some("R-1".into()),
    };
    let mut e = entry(1, 7, "5000", "debit", 250_000);
    e.memo = Some("January".into());
    e.tax_category = Some("rent".into());
    let entries = vec![e, entry(2, 7, "1000", "credit", 250_000)];
    let out = render_transaction_detail(&txn, &entries, 2, false);
    let expected = "Transaction Detail\n  ID:          7\n  Date:        2025-01-05\n  Description: Rent\n  Currency:    USD\n  Reference:   R-1\n  Posted at:   2025-01-05 09:00:00\n\n  Entries:\n    DR 5000  2,500.00  (January)  [rent]\n    CR 1000  2,500.00\n\n  Total Debits:  2,500.00\n  Total Credits: 2,500.00\n  [ok] BALANCED";
    assert_eq!(out, expected);
}

// -- render_trial_balance --

#[test]
fn table_render_trial_balance_balanced() {
    let rows = vec![
        BalanceRow {
            code: "1000".into(),
            name: "Cash".into(),
            account_type: "asset".into(),
            debit_total: 10000,
            credit_total: 0,
        },
        BalanceRow {
            code: "4000".into(),
            name: "Revenue".into(),
            account_type: "revenue".into(),
            debit_total: 0,
            credit_total: 10000,
        },
    ];
    let out = render_trial_balance(&rows, "USD", 2, false);
    assert!(out.contains("Trial Balance (USD)"));
    assert!(out.contains("1000"));
    assert!(out.contains("Cash"));
    assert!(out.contains("100.00"));
    assert!(out.contains("[ok] BALANCED"));
}

#[test]
fn table_render_trial_balance_unbalanced() {
    let rows = vec![BalanceRow {
        code: "1000".into(),
        name: "Cash".into(),
        account_type: "asset".into(),
        debit_total: 10000,
        credit_total: 5000,
    }];
    let out = render_trial_balance(&rows, "USD", 2, false);
    assert!(out.contains("[!!] UNBALANCED"));
    assert!(out.ends_with("[!!] UNBALANCED (difference: 50.00)"));
}

#[test]
fn render_trial_balance_jpy() {
    let rows = vec![BalanceRow {
        code: "1000".into(),
        name: "Cash".into(),
        account_type: "asset".into(),
        debit_total: 5000,
        credit_total: 5000,
    }];
    let out = render_trial_balance(&rows, "JPY", 0, false);
    assert!(out.contains("Trial Balance (JPY)"));
    assert!(out.contains("5,000"));
    assert!(out.contains("[ok] BALANCED"));
}

// -- render_account_balance --

#[test]
fn render_account_balance_asset() {
    let p = AccountBalanceParams {
        code: "1000",
        name: "Cash",
        account_type: "asset",
        debit_total: 15000,
        credit_total: 5000,
        currency_code: "USD",
        currency_minor_units: 2,
        use_color: false,
    };
    let out = render_account_balance(&p);
    assert!(out.contains("1000"));
    assert!(out.contains("Cash"));
    assert!(out.contains("Asset"));
    assert!(out.contains("Debit"));
    assert!(out.contains("150.00")); // debits
    assert!(out.contains("50.00")); // credits
    assert!(out.contains("100.00")); // net = 150 - 50
}

#[test]
fn render_account_balance_liability() {
    let p = AccountBalanceParams {
        code: "2000",
        name: "Loans",
        account_type: "liability",
        debit_total: 0,
        credit_total: 50000,
        currency_code: "USD",
        currency_minor_units: 2,
        use_color: false,
    };
    let out = render_account_balance(&p);
    assert!(out.contains("2000"));
    assert!(out.contains("Loans"));
    assert!(out.contains("Credit"));
    assert!(out.contains("500.00")); // net = credits - debits
    assert!(out.ends_with("  Balance: 500.00 USD"));
}

// -- attachments and tax summary --

#[test]
fn render_attachments_lines() {
    let atts = vec![
        AttachmentRow {
            id: 1,
            transaction_id: 3,
            entry_id: None,
            company_slug: "acme".into(),
            uri: "file:///r.pdf".into(),
            document_type: "Receipt".into(),
            hash: Some("0123456789abcdef".into()),
            original_filename: Some("r.pdf".into()),
            attached_at: "2025-01-01".into(),
        },
        AttachmentRow {
            id: 2,
            transaction_id: 3,
            entry_id: None,
            company_slug: "acme".into(),
            uri: "file:///x".into(),
            document_type: "Invoice".into(),
            hash: None,
            original_filename: None,
            attached_at: "2025-01-01".into(),
        },
    ];
    assert_eq!(
        render_attachments(&atts, false),
        "  Attachments:\n    [Receipt] r.pdf  (0123456789ab)\n    [Invoice] (no filename)"
    );
}

#[test]
fn render_tax_summary_empty_and_count() {
    assert_eq!(render_tax_summary(&[], "USD", 2, false), "No categorised entries found.");
    let rows = vec![TaxSummaryRow { tax_category: "rent".into(), debit_total: 500, credit_total: 0 }];
    let out = render_tax_summary(&rows, "USD", 2, false);
    assert!(out.starts_with("Tax Summary (USD)\n\n"));
    assert!(out.ends_with("\n\n1 tax category"));
}

// -- tables at a fixed width --

#[test]
fn companies_table_at_width_holds_cells() {
    let rows = vec![CompanyRow {
        slug: "acme".to_string(),
        name: "Acme Corp".to_string(),
        description: None,
        created_at: "2025-01-01".to_string(),
    }];
    let out = render_companies_at(&rows, false, Some(80));
    let lines: Vec<&str> = out.lines().collect();
    assert!(lines[0].starts_with('╭'));
    assert!(out.contains("│ Slug"));
    assert!(out.contains("│ acme"));
    assert!(out.contains("Acme Corp"));
    assert!(out.ends_with("\n\n1 company"));
    assert_eq!(out, render_companies_at(&rows, false, Some(80)));
}

#[test]
fn orphaned_table_is_plain_ascii() {
    let orphans = vec![OrphanedCorrelation {
        transaction_id: 7,
        company_slug: "acme".to_string(),
        description: "Loan".to_string(),
        date: "2025-01-02".to_string(),
        partner_id: 9,
    }];
    let out = render_orphaned_correlations_at(&orphans, None);
    assert!(out.starts_with("+-"));
    assert!(out.contains("| Txn ID"));
    assert!(out.contains("| 7 "));
    assert!(out.ends_with("\n\n1 orphaned correlation(s)"));
}

#[test]
fn trial_balance_at_width_aligns_amounts_right() {
    let rows = vec![BalanceRow {
        code: "1000".to_string(),
        name: "Cash".to_string(),
        account_type: "asset".to_string(),
        debit_total: 500,
        credit_total: 500,
    }];
    let out = render_trial_balance_at(&rows, "USD", 2, false, Some(60));
    assert!(out.starts_with("Trial Balance (USD)\n\n"));
    assert!(out.contains("Totals"));
    assert!(out.contains(" 5.00 │"));
    assert!(out.ends_with("[ok] BALANCED"));
}
