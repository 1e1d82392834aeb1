use beankeeper::cli::commands::import_ofx::{
    FailedTransaction, ImportResult, ImportedTransaction, SkippedTransaction,
};
use beankeeper::cli::db::{AccountRow, BalanceRow, CompanyRow, EntryRow, PostResult, TransactionRow};
use beankeeper::cli::output::json::{
    meta, meta_with_timestamp, normal_balance_for, render_account_balance, render_accounts,
    render_companies, render_count, render_import_result, render_post_result,
    render_transactions, render_trial_balance, render_verify, Meta,
};
use std::collections::HashMap;

fn test_meta(command: &str, company: Option<&str>) -> Meta {
    meta_with_timestamp(command, company, "2025-01-01T00:00:00Z".to_string())
}

#[test]
fn json_render_companies_empty() {
    let env = render_companies(&[], test_meta("company.list", None));
    assert!(env.ok);
    assert_eq!(env.meta.command, "company.list");
    assert_eq!(env.data.map(|d| d.len()), Some(0));
}

#[test]
fn json_render_companies_single() {
    let rows = vec![CompanyRow {
        slug: "acme".into(),
        name: "Acme Corp".into(),
        description: None,
        created_at: "2025-01-01T00:00:00".into(),
    }];
    let env = render_companies(&rows, test_meta("company.show", None));
    assert!(env.ok);
    let data = env.data.unwrap();
    assert_eq!(data[0].slug, "acme");
    assert_eq!(data[0].name, "Acme Corp");
}

#[test]
fn render_accounts_normal_balance() {
    let rows = vec![AccountRow {
        company_slug: "acme".into(),
        code: "1000".into(),
        name: "Cash".into(),
        account_type: "asset".into(),
        created_at: "2025-01-01".into(),
        default_tax_category: None,
    }];
    let env = render_accounts(&rows, test_meta("account.list", Some("acme")));
    assert!(env.ok);
    assert_eq!(env.meta.company.as_deref(), Some("acme"));
    let data = env.data.unwrap();
    assert_eq!(data[0].account_type, "asset");
    assert_eq!(data[0].normal_balance, "debit");
}

#[test]
fn render_accounts_revenue_is_credit() {
    let rows = vec![AccountRow {
        company_slug: "acme".into(),
        code: "4000".into(),
        name: "Revenue".into(),
        account_type: "revenue".into(),
        created_at: "2025-01-01".into(),
        default_tax_category: None,
    }];
    let env = render_accounts(&rows, test_meta("account.list", Some("acme")));
    assert_eq!(env.data.unwrap()[0].normal_balance, "credit");
}

fn entry(id: i64, code: &str, direction: &str) -> EntryRow {
    EntryRow {
        id,
        transaction_id: 1,
        account_code: code.into(),
        company_slug: "acme".into(),
        direction: direction.into(),
        amount: 5000,
        memo: None,
        tax_category: None,
    }
}

#[test]
fn render_transactions_with_entries() {
    let txns = vec![TransactionRow {
        id: 1,
        company_slug: "acme".into(),
        description: "Sale".into(),
        metadata: None,
        currency: "USD".into(),
        date: "2025-03-15".into(),
        posted_at: "2025-03-15T10:00:00".into(),
        reference: None,
    }];
    let mut map = HashMap::new();
    map.insert(1, vec![entry(1, "1000", "debit"), entry(2, "4000", "credit")]);
    let env = render_transactions(&txns, &map, test_meta("txn.list", Some("acme")));
    assert!(env.ok);
    let data = env.data.unwrap();
    assert_eq!(data[0].description, "Sale");
    assert_eq!(data[0].entries[0].account_code, "1000");
    assert_eq!(data[0].entries[0].direction, "debit");
    assert_eq!(data[0].entries[0].amount, 5000);
}

#[test]
fn render_transactions_missing_entries() {
    let txns = vec![TransactionRow {
        id: 99,
        company_slug: "acme".into(),
        description: "Orphan".into(),
        metadata: None,
        currency: "USD".into(),
        date: "2025-03-15".into(),
        posted_at: "2025-03-15T10:00:00".into(),
        reference: None,
    }];
    let env = render_transactions(&txns, &HashMap::new(), test_meta("txn.list", Some("acme")));
    assert!(env.data.unwrap()[0].entries.is_empty());
}

#[test]
fn json_render_trial_balance_balanced() {
    let rows = vec![
        BalanceRow {
            code: "1000".into(),
            name: "Cash".into(),
            account_type: "asset".into(),
            debit_total: 10000,
            credit_total: 0,
        },
        BalanceRow {
            code: "4000".into(),
            name: "Revenue".into(),
            account_type: "revenue".into(),
            debit_total: 0,
            credit_total: 10000,
        },
    ];
    let env = render_trial_balance(&rows, test_meta("report.trial-balance", Some("acme")));
    assert!(env.ok);
    let data = env.data.unwrap();
    assert!(data.balanced);
    assert_eq!(data.total_debits, 10000);
    assert_eq!(data.total_credits, 10000);
}

#[test]
fn json_render_trial_balance_unbalanced() {
    let rows = vec![BalanceRow {
        code: "1000".into(),
        name: "Cash".into(),
        account_type: "asset".into(),
        debit_total: 10000,
        credit_total: 5000,
    }];
    let env = render_trial_balance(&rows, test_meta("report.trial-balance", Some("acme")));
    assert!(!env.data.unwrap().balanced);
}

#[test]
fn render_account_balance_json() {
    let row = BalanceRow {
        code: "1000".into(),
        name: "Cash".into(),
        account_type: "asset".into(),
        debit_total: 15000,
        credit_total: 5000,
    };
    let env = render_account_balance(&row, "USD", test_meta("report.balance", Some("acme")));
    assert!(env.ok);
    let data = env.data.unwrap();
    assert_eq!(data.code, "1000");
    assert_eq!(data.currency, "USD");
    assert_eq!(data.debit_total, 15000);
}

#[test]
fn normal_balance_for_all_types() {
    assert_eq!(normal_balance_for("asset"), "debit");
    assert_eq!(normal_balance_for("expense"), "debit");
    assert_eq!(normal_balance_for("liability"), "credit");
    assert_eq!(normal_balance_for("equity"), "credit");
    assert_eq!(normal_balance_for("revenue"), "credit");
    assert_eq!(normal_balance_for("unknown_type"), "unknown");
}

#[test]
fn envelope_structure_success() {
    let env = render_companies(&[], test_meta("company.list", None));
    assert!(env.ok);
    assert_eq!(env.meta.command, "company.list");
    assert_eq!(env.meta.timestamp, "2025-01-01T00:00:00Z");
    assert!(env.meta.company.is_none());
    assert!(env.data.is_some());
    assert!(env.error.is_none());
}

#[test]
fn envelope_structure_company_field() {
    let env = render_accounts(&[], test_meta("account.list", Some("acme")));
    assert_eq!(env.meta.company.as_deref(), Some("acme"));
}

#[test]
fn meta_with_timestamp_is_deterministic() {
    let m = meta_with_timestamp("test", None, "2025-06-15T12:00:00Z".to_string());
    assert_eq!(m.timestamp, "2025-06-15T12:00:00Z");
    assert_eq!(m.command, "test");
    assert!(m.company.is_none());
}

#[test]
fn json_trial_balance_saturates_totals() {
    let rows = vec![
        BalanceRow {
            code: "1".into(),
            name: "A".into(),
            account_type: "asset".into(),
            debit_total: i64::MAX,
            credit_total: 0,
        },
        BalanceRow {
            code: "2".into(),
            name: "B".into(),
            account_type: "asset".into(),
            debit_total: 5,
            credit_total: 0,
        },
    ];
    let data = render_trial_balance(&rows, test_meta("report.trial-balance", None)).data.unwrap();
    assert_eq!(data.total_debits, i64::MAX);
    assert!(!data.balanced);
}

#[test]
fn json_small_payloads() {
    assert_eq!(render_count(7, test_meta("txn.count", None)).data.unwrap().count, 7);
    let created = render_post_result(PostResult::Created(4), test_meta("txn.post", None)).data.unwrap();
    assert_eq!((created.id, created.existing_id, created.created, created.skipped), (Some(4), None, true, false));
    let skipped = render_post_result(PostResult::Skipped(4), test_meta("txn.post", None)).data.unwrap();
    assert_eq!((skipped.id, skipped.existing_id, skipped.created, skipped.skipped), (None, Some(4), false, true));
    let verify = render_verify(2, test_meta("verify", None)).data.unwrap();
    assert_eq!(verify.status, "healthy");
}

#[test]
fn json_import_result_orders_outcomes() {
    let result = ImportResult {
        imported: vec![ImportedTransaction {
            id: 11,
            date: "2025-01-01".into(),
            description: "In".into(),
            amount_minor: 100,
            is_inflow: true,
        }],
        skipped: vec![SkippedTransaction {
            date: "2025-01-02".into(),
            description: "Dup".into(),
            amount_minor: 200,
            reference: "ofx:a:1".into(),
        }],
        errors: vec![FailedTransaction {
            date: "2025-01-03".into(),
            description: "Bad".into(),
            amount_minor: 0,
            error: "boom".into(),
        }],
    };
    let data = render_import_result(&result, true, test_meta("txn.import", None)).data.unwrap();
    assert_eq!((data.imported, data.skipped, data.errors), (1, 1, 1));
    assert_eq!(data.transactions[0].id, None);
    assert_eq!(data.transactions[0].status, "imported");
    assert_eq!(data.transactions[1].reason.as_deref(), Some("duplicate"));
    assert_eq!(data.transactions[2].reason.as_deref(), Some("boom"));
}

#[test]
fn meta_timestamp_is_rfc3339_utc() {
    let m = meta("company.list", Some("acme"));
    let t = m.timestamp.as_bytes();
    assert_eq!(t.len(), 20);
    assert!(t[..4].iter().all(u8::is_ascii_digit));
    assert_eq!((t[4], t[7], t[10], t[13], t[16], t[19]), (b'-', b'-', b'T', b':', b':', b'Z'));
    assert_eq!(m.company.as_deref(), Some("acme"));
}
