use beankeeper::cli::db::audit::{
    account_snapshot, budget_amount_snapshot, budget_snapshot, company_snapshot,
    correlated_snapshot, list_audit_query, metadata_snapshot, status_snapshot, EntryStatus,
    ListAuditParams,
};
use beankeeper::cli::db::{AccountRow, CompanyRow, SqlParam};

fn texts(values: &[SqlParam]) -> Vec<String> {
    values
        .iter()
        .map(|v| match v {
            SqlParam::Text(t) => format!("T:{t}"),
            SqlParam::Integer(i) => format!("I:{i}"),
        })
        .collect()
}

#[test]
fn audit_query_without_filters_binds_only_the_limit() {
    let p = ListAuditParams { company_slug: None, entity: None, action: None, limit: 50 };
    let (sql, values) = list_audit_query(&p);
    assert_eq!(
        sql,
        "SELECT id, changed_at, actor, company_slug, entity, entity_id, action, before, after \
         FROM audit_log WHERE 1 = 1 ORDER BY id DESC LIMIT ?1"
    );
    assert_eq!(texts(&values), vec!["I:50".to_string()]);
}

#[test]
fn audit_query_numbers_present_filters_in_order() {
    let p = ListAuditParams {
        company_slug: None,
        entity: Some("budget"),
        action: Some("budget_set"),
        limit: 5,
    };
    let (sql, values) = list_audit_query(&p);
    assert!(sql.ends_with(" AND entity = ?1 AND action = ?2 ORDER BY id DESC LIMIT ?3"));
    assert_eq!(
        texts(&values),
        vec!["T:budget".to_string(), "T:budget_set".to_string(), "I:5".to_string()]
    );
}

#[test]
fn audit_query_with_all_filters() {
    let p = ListAuditParams {
        company_slug: Some("acme"),
        entity: Some("entry"),
        action: Some("status_change"),
        limit: 0,
    };
    let (sql, values) = list_audit_query(&p);
    assert!(sql.ends_with(
        " AND company_slug = ?1 AND entity = ?2 AND action = ?3 ORDER BY id DESC LIMIT ?4"
    ));
    assert_eq!(values.len(), 4);
}

#[test]
fn status_snapshots_name_the_status() {
    assert_eq!(status_snapshot(EntryStatus::Cleared), r#"{"status":"cleared"}"#);
    assert_eq!(status_snapshot(EntryStatus::Uncleared), r#"{"status":"uncleared"}"#);
    assert_eq!(status_snapshot(EntryStatus::Reconciled), r#"{"status":"reconciled"}"#);
}

#[test]
fn budget_snapshots_sort_keys_and_write_null_notes() {
    assert_eq!(budget_amount_snapshot(-120), r#"{"amount":-120}"#);
    assert_eq!(
        budget_snapshot(5000, 3, None, 2025),
        r#"{"amount":5000,"month":3,"notes":null,"year":2025}"#
    );
    assert_eq!(
        budget_snapshot(1, 12, Some("say \"hi\""), 2024),
        r#"{"amount":1,"month":12,"notes":"say \"hi\"","year":2024}"#
    );
}

#[test]
fn account_and_company_snapshots() {
    let row = AccountRow {
        company_slug: "acme".to_string(),
        code: "1000".to_string(),
        name: "Cash".to_string(),
        account_type: "asset".to_string(),
        created_at: "2025-01-01 00:00:00".to_string(),
        default_tax_category: None,
    };
    assert_eq!(
        account_snapshot(&row),
        r#"{"code":"1000","created_at":"2025-01-01 00:00:00","default_tax_category":null,"name":"Cash","type":"asset"}"#
    );
    let company = CompanyRow {
        slug: "acme".to_string(),
        name: "Acme Ltd".to_string(),
        description: Some("widgets".to_string()),
        created_at: "2025-01-02".to_string(),
    };
    assert_eq!(
        company_snapshot(&company),
        r#"{"created_at":"2025-01-02","description":"widgets","name":"Acme Ltd","slug":"acme"}"#
    );
}

#[test]
fn correlation_snapshots() {
    assert_eq!(metadata_snapshot(None), r#"{"metadata":null}"#);
    assert_eq!(metadata_snapshot(Some("inv-1")), r#"{"metadata":"inv-1"}"#);
    assert_eq!(
        correlated_snapshot(r#"{"correlate":7}"#, 7),
        r#"{"correlated_with":7,"metadata":"{\"correlate\":7}"}"#
    );
}
