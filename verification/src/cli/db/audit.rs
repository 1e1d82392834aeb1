//! The audit trail: entry statuses, actors and recorded changes.
use vstd::prelude::*;
use crate::cli::error::CliError;
use crate::cli::db::transactions::{json_quoted, json_string_literal, param_views, SqlParam, SqlParamView};
use crate::cli::db::{AccountRow, CompanyRow};
use crate::text::{i128_to_string, int_decimal, str_eq, trim, trim_text};

verus! {

/// Reconciliation status of a ledger entry.
#[derive(Debug, Clone, Copy, PartialEq, Eq, Structural)]
pub enum EntryStatus {
    /// Not yet matched against a statement.
    Uncleared,
    /// Matched against a statement but not part of a closed reconciliation.
    Cleared,
    /// Locked in by a completed reconciliation.
    Reconciled,
}

/// The stored name of an entry status.
pub open spec fn entry_status_name(s: EntryStatus) -> Seq<char> {
    match s {
        EntryStatus::Uncleared => "uncleared"@,
        EntryStatus::Cleared => "cleared"@,
        EntryStatus::Reconciled => "reconciled"@,
    }
}

/// The entry status a stored name denotes (exact, lowercase).
pub open spec fn entry_status_named(s: Seq<char>) -> Option<EntryStatus> {
    if s == "uncleared"@ {
        Some(EntryStatus::Uncleared)
    } else if s == "cleared"@ {
        Some(EntryStatus::Cleared)
    } else if s == "reconciled"@ {
        Some(EntryStatus::Reconciled)
    } else {
        None
    }
}

/// Appends `s` to `out`.
fn push_str(out: &mut String, s: &str)
    ensures
        final(out)@ == old(out)@ + s@,
{
    out.append(s);
}

impl EntryStatus {
    /// Returns the lowercase name stored in the database.
    pub fn as_str(self) -> (s: &'static str)
        ensures
            s@ == entry_status_name(self),
    {
        match self {
            EntryStatus::Uncleared => "uncleared",
            EntryStatus::Cleared => "cleared",
            EntryStatus::Reconciled => "reconciled",
        }
    }

    /// The display form: the stored name.
    pub fn to_string(&self) -> (s: String)
        ensures
            s@ == entry_status_name(*self),
    {
        self.as_str().to_owned()
    }

    /// Parses a stored name; anything else is a validation error.
    pub fn parse(s: &str) -> (r: Result<EntryStatus, CliError>)
        ensures
            match entry_status_named(s@) {
                Some(t) => r matches Ok(u) && u == t,
                None => r matches Err(CliError::Validation(m)) && m@ == "invalid entry status '"@ + s@
                    + "'"@,
            },
    {
        proof {
            reveal_strlit("uncleared");
            reveal_strlit("cleared");
            reveal_strlit("reconciled");
        }
        if str_eq(s, "uncleared") {
            Ok(EntryStatus::Uncleared)
        } else if str_eq(s, "cleared") {
            Ok(EntryStatus::Cleared)
        } else if str_eq(s, "reconciled") {
            Ok(EntryStatus::Reconciled)
        } else {
            let mut m = "invalid entry status '".to_string();
            push_str(&mut m, s);
            push_str(&mut m, "'");
            Err(CliError::Validation(m))
        }
    }
}

impl core::str::FromStr for EntryStatus {
    type Err = CliError;

    fn from_str(s: &str) -> (r: Result<EntryStatus, CliError>)
        ensures
            match entry_status_named(s@) {
                Some(t) => r matches Ok(u) && u == t,
                None => r matches Err(CliError::Validation(m)) && m@ == "invalid entry status '"@ + s@
                    + "'"@,
            },
    {
        EntryStatus::parse(s)
    }
}

/// The principal responsible for a change, recorded in every audit row.
#[derive(Debug, Clone)]
pub struct Actor(String);

impl View for Actor {
    type V = Seq<char>;

    closed spec fn view(&self) -> Seq<char> {
        self.0@
    }
}

/// The first candidate name that is not empty once trimmed, trimmed.
pub open spec fn first_present(names: Seq<Option<Seq<char>>>) -> Option<Seq<char>>
    decreases names.len(),
{
    if names.len() == 0 {
        None
    } else {
        match names[0] {
            Some(n) => if trim_text(n).len() > 0 {
                Some(trim_text(n))
            } else {
                first_present(names.drop_first())
            },
            None => first_present(names.drop_first()),
        }
    }
}

/// The views of a list of optional strings.
pub open spec fn opt_strings(v: Seq<Option<String>>) -> Seq<Option<Seq<char>>> {
    v.map_values(
        |o: Option<String>|
            match o {
                Some(s) => Some(s@),
                None => None,
            },
    )
}

/// The first present name from position `i` on is the one at `i`, if it
/// is present, else the first from `i + 1` on.
proof fn lemma_first_present_step(names: Seq<Option<Seq<char>>>, i: int)
    requires
        0 <= i < names.len(),
    ensures
        first_present(names.subrange(i, names.len() as int)) == (match names[i] {
            Some(n) => if trim_text(n).len() > 0 {
                Some(trim_text(n))
            } else {
                first_present(names.subrange(i + 1, names.len() as int))
            },
            None => first_present(names.subrange(i + 1, names.len() as int)),
        }),
{
    let tail = names.subrange(i, names.len() as int);
    assert(tail[0] == names[i]);
    assert(tail.drop_first() =~= names.subrange(i + 1, names.len() as int));
}

impl Actor {
    /// Makes an actor with an explicit name.
    pub fn new(name: &str) -> (a: Actor)
        ensures
            a@ == name@,
    {
        Actor(name.to_owned())
    }

    /// Resolves the effective actor: the explicit name when it is not empty
    /// once trimmed, else the first such value among `candidates` (in the
    /// command line, the `BK_ACTOR`, `USER` and `USERNAME` environment
    /// variables), else `cli`. Names are trimmed.
    pub fn resolve_with(explicit: Option<&str>, candidates: &[Option<String>]) -> (a: Actor)
        ensures
            a@ == (match first_present(seq![
                match explicit {
                    Some(e) => Some(e@),
                    None => None,
                },
            ] + opt_strings(candidates@)) {
                Some(n) => n,
                None => "cli"@,
            }),
    {
        let ghost all = seq![
            match explicit {
                Some(e) => Some(e@),
                None => None,
            },
        ] + opt_strings(candidates@);
        assert(all.drop_first() =~= opt_strings(candidates@));
        if let Some(name) = explicit {
            let t = trim(name);
            if t.unicode_len() > 0 {
                return Actor(t.to_owned());
            }
        }
        let mut i: usize = 0;
        while i < candidates.len()
            invariant
                i <= candidates@.len(),
                all == seq![
                    match explicit {
                        Some(e) => Some(e@),
                        None => None,
                    },
                ] + opt_strings(candidates@),
                all.len() == candidates@.len() + 1,
                all.drop_first() == opt_strings(candidates@),
                first_present(all) == first_present(all.subrange(i + 1, all.len() as int)),
            decreases candidates@.len() - i,
        {
            proof {
                lemma_first_present_step(all, i + 1);
                assert(all[i + 1] == all.drop_first()[i as int]);
            }
            if let Some(v) = &candidates[i] {
                assert(opt_strings(candidates@)[i as int] == Some(v@));
                let t = trim(v.as_str());
                if t.unicode_len() > 0 {
                    return Actor(t.to_owned());
                }
            }
            i = i + 1;
        }
        assert(all.subrange(i + 1, all.len() as int) =~= Seq::<Option<Seq<char>>>::empty());
        Actor("cli".to_string())
    }

    /// Returns the actor's name.
    pub fn name(&self) -> (s: &str)
        ensures
            s@ == self@,
    {
        self.0.as_str()
    }
}

/// A single recorded change.
#[derive(Debug, Clone)]
pub struct AuditLogRow {
    /// The audit row id.
    pub id: i64,
    /// When the change was made.
    pub changed_at: String,
    /// Who made it.
    pub actor: String,
    /// The company concerned, if any.
    pub company_slug: Option<String>,
    /// The kind of record changed.
    pub entity: String,
    /// The id of the record changed.
    pub entity_id: String,
    /// What was done.
    pub action: String,
    /// A snapshot before the change.
    pub before: Option<String>,
    /// A snapshot after the change.
    pub after: Option<String>,
}

/// Filters for listing the audit trail.
pub struct ListAuditParams<'a> {
    /// Only changes for this company.
    pub company_slug: Option<&'a str>,
    /// Only changes to this kind of record.
    pub entity: Option<&'a str>,
    /// Only this kind of change.
    pub action: Option<&'a str>,
    /// The maximum number of rows.
    pub limit: i64,
}


/// One when the filter is present, else zero.
pub open spec fn present_count(o: Option<&str>) -> int {
    if o is Some {
        1
    } else {
        0
    }
}

/// The `SELECT` of an audit listing, before its optional filters.
pub open spec fn audit_select() -> Seq<char> {
    "SELECT id, changed_at, actor, company_slug, entity, entity_id, action, before, after FROM audit_log WHERE 1 = 1"@
}

/// The clause of an optional filter on `column`, bound to placeholder `n`.
pub open spec fn audit_clause(o: Option<&str>, column: Seq<char>, n: int) -> Seq<char> {
    if o is Some {
        " AND "@ + column + " = ?"@ + int_decimal(n)
    } else {
        Seq::empty()
    }
}

/// The SQL of an audit listing: the present filters on company, entity and
/// action, numbered in that order, then the newest rows first up to the
/// limit, bound last.
pub open spec fn list_audit_sql(p: ListAuditParams) -> Seq<char> {
    let c = present_count(p.company_slug);
    let e = present_count(p.entity);
    let a = present_count(p.action);
    audit_select() + audit_clause(p.company_slug, "company_slug"@, 1) + audit_clause(
        p.entity,
        "entity"@,
        1 + c,
    ) + audit_clause(p.action, "action"@, 1 + c + e) + " ORDER BY id DESC LIMIT ?"@ + int_decimal(
        1 + c + e + a,
    )
}

/// The value bound for an optional text filter.
pub open spec fn text_value(o: Option<&str>) -> Seq<SqlParamView> {
    match o {
        Some(t) => seq![SqlParamView::Text(t@)],
        None => Seq::empty(),
    }
}

/// The values bound to an audit listing: the present filters, then the
/// limit.
pub open spec fn list_audit_values(p: ListAuditParams) -> Seq<SqlParamView> {
    text_value(p.company_slug) + text_value(p.entity) + text_value(p.action) + seq![
        SqlParamView::Integer(p.limit as int),
    ]
}

/// Appends the clause of an optional filter and binds its value, counting
/// placeholders in `idx`.
fn push_audit_filter(
    sql: &mut String,
    values: &mut Vec<SqlParam>,
    idx: &mut u32,
    o: Option<&str>,
    column: &str,
)
    requires
        *old(idx) < 10,
    ensures
        final(sql)@ == old(sql)@ + audit_clause(o, column@, *old(idx) as int),
        param_views(final(values)@) == param_views(old(values)@) + text_value(o),
        *final(idx) == *old(idx) + present_count(o),
{
    if let Some(v) = o {
        sql.append(" AND ");
        sql.append(column);
        sql.append(" = ?");
        let n = i128_to_string(*idx as i128);
        sql.append(n.as_str());
        let ghost before = values@;
        values.push(SqlParam::Text(v.to_string()));
        assert(param_views(values@) =~= param_views(before) + text_value(o));
        *idx = *idx + 1;
    } else {
        assert(param_views(values@) =~= param_views(values@) + text_value(o));
    }
}

/// Builds the query listing audit rows most recent first, with optional
/// company, entity and action filters and a row limit.
pub fn list_audit_query(p: &ListAuditParams) -> (r: (String, Vec<SqlParam>))
    ensures
        r.0@ == list_audit_sql(*p),
        param_views(r.1@) == list_audit_values(*p),
{
    let mut sql = "SELECT id, changed_at, actor, company_slug, entity, entity_id, action, before, after FROM audit_log WHERE 1 = 1".to_string();
    let mut values: Vec<SqlParam> = Vec::new();
    let mut idx: u32 = 1;
    assert(param_views(values@) =~= Seq::<SqlParamView>::empty());
    push_audit_filter(&mut sql, &mut values, &mut idx, p.company_slug, "company_slug");
    push_audit_filter(&mut sql, &mut values, &mut idx, p.entity, "entity");
    push_audit_filter(&mut sql, &mut values, &mut idx, p.action, "action");
    sql.append(" ORDER BY id DESC LIMIT ?");
    let n = i128_to_string(idx as i128);
    sql.append(n.as_str());
    let ghost before = values@;
    values.push(SqlParam::Integer(p.limit));
    assert(param_views(values@) =~= param_views(before) + seq![SqlParamView::Integer(p.limit as int)]);
    assert(sql@ =~= list_audit_sql(*p));
    assert(param_views(values@) =~= list_audit_values(*p));
    (sql, values)
}

/// A JSON value for optional text: the quoted string, or `null`.
pub open spec fn json_opt_text(o: Option<Seq<char>>) -> Seq<char> {
    match o {
        Some(s) => json_quoted(s),
        None => "null"@,
    }
}

/// The views of optional text.
pub open spec fn opt_text_view(o: Option<&str>) -> Option<Seq<char>> {
    match o {
        Some(s) => Some(s@),
        None => None,
    }
}

/// The views of optional owned text.
pub open spec fn opt_string_view(o: Option<String>) -> Option<Seq<char>> {
    match o {
        Some(s) => Some(s@),
        None => None,
    }
}

/// Appends a quoted JSON string, or `null`.
fn push_json_opt(out: &mut String, o: Option<&str>)
    ensures
        final(out)@ == old(out)@ + json_opt_text(opt_text_view(o)),
{
    match o {
        Some(s) => {
            let q = json_string_literal(s);
            out.append(q.as_str());
        },
        None => {
            out.append("null");
        },
    }
}

/// Appends a quoted JSON string.
fn push_json_text(out: &mut String, s: &str)
    ensures
        final(out)@ == old(out)@ + json_quoted(s@),
{
    let q = json_string_literal(s);
    out.append(q.as_str());
}

/// Appends an integer in decimal.
fn push_json_int(out: &mut String, v: i64)
    ensures
        final(out)@ == old(out)@ + int_decimal(v as int),
{
    let t = i128_to_string(v as i128);
    out.append(t.as_str());
}

/// The snapshot of an entry's status: `{"status":"<name>"}`.
pub open spec fn status_snapshot_text(s: EntryStatus) -> Seq<char> {
    "{\"status\":\""@ + entry_status_name(s) + "\"}"@
}

/// The recorded snapshot of an entry's clearance status.
pub fn status_snapshot(s: EntryStatus) -> (r: String)
    ensures
        r@ == status_snapshot_text(s),
{
    let mut out = "{\"status\":\"".to_string();
    out.append(s.as_str());
    out.append("\"}");
    out
}

/// The snapshot of a budget's prior amount: `{"amount":<n>}`.
pub open spec fn budget_amount_snapshot_text(amount: int) -> Seq<char> {
    "{\"amount\":"@ + int_decimal(amount) + "}"@
}

/// The recorded snapshot of the amount a budget month held before it was
/// replaced.
pub fn budget_amount_snapshot(amount: i64) -> (r: String)
    ensures
        r@ == budget_amount_snapshot_text(amount as int),
{
    let mut out = "{\"amount\":".to_string();
    push_json_int(&mut out, amount);
    out.append("}");
    out
}

/// The snapshot of a budget month, keys in order:
/// `{"amount":..,"month":..,"notes":..,"year":..}`.
pub open spec fn budget_snapshot_text(amount: int, month: int, notes: Option<Seq<char>>, year: int) -> Seq<char> {
    "{\"amount\":"@ + int_decimal(amount) + ",\"month\":"@ + int_decimal(month) + ",\"notes\":"@
        + json_opt_text(notes) + ",\"year\":"@ + int_decimal(year) + "}"@
}

/// The recorded snapshot of a budget month, as set or as deleted.
pub fn budget_snapshot(amount: i64, month: i32, notes: Option<&str>, year: i32) -> (r: String)
    ensures
        r@ == budget_snapshot_text(amount as int, month as int, opt_text_view(notes), year as int),
{
    let mut out = "{\"amount\":".to_string();
    push_json_int(&mut out, amount);
    out.append(",\"month\":");
    push_json_int(&mut out, month as i64);
    out.append(",\"notes\":");
    push_json_opt(&mut out, notes);
    out.append(",\"year\":");
    push_json_int(&mut out, year as i64);
    out.append("}");
    out
}

/// The snapshot of a deleted account, keys in order:
/// `{"code":..,"created_at":..,"default_tax_category":..,"name":..,"type":..}`.
pub open spec fn account_snapshot_text(row: AccountRow) -> Seq<char> {
    "{\"code\":"@ + json_quoted(row.code@) + ",\"created_at\":"@ + json_quoted(row.created_at@)
        + ",\"default_tax_category\":"@ + json_opt_text(opt_string_view(row.default_tax_category))
        + ",\"name\":"@ + json_quoted(row.name@) + ",\"type\":"@ + json_quoted(row.account_type@)
        + "}"@
}

/// The recorded snapshot of an account about to be deleted.
pub fn account_snapshot(row: &AccountRow) -> (r: String)
    ensures
        r@ == account_snapshot_text(*row),
{
    let mut out = "{\"code\":".to_string();
    push_json_text(&mut out, row.code.as_str());
    out.append(",\"created_at\":");
    push_json_text(&mut out, row.created_at.as_str());
    out.append(",\"default_tax_category\":");
    let tax: Option<&str> = match &row.default_tax_category {
        Some(t) => Some(t.as_str()),
        None => None,
    };
    push_json_opt(&mut out, tax);
    out.append(",\"name\":");
    push_json_text(&mut out, row.name.as_str());
    out.append(",\"type\":");
    push_json_text(&mut out, row.account_type.as_str());
    out.append("}");
    out
}

/// The snapshot of a deleted company, keys in order:
/// `{"created_at":..,"description":..,"name":..,"slug":..}`.
pub open spec fn company_snapshot_text(row: CompanyRow) -> Seq<char> {
    "{\"created_at\":"@ + json_quoted(row.created_at@) + ",\"description\":"@ + json_opt_text(
        opt_string_view(row.description),
    ) + ",\"name\":"@ + json_quoted(row.name@) + ",\"slug\":"@ + json_quoted(row.slug@) + "}"@
}

/// The recorded snapshot of a company about to be deleted.
pub fn company_snapshot(row: &CompanyRow) -> (r: String)
    ensures
        r@ == company_snapshot_text(*row),
{
    let mut out = "{\"created_at\":".to_string();
    push_json_text(&mut out, row.created_at.as_str());
    out.append(",\"description\":");
    let d: Option<&str> = match &row.description {
        Some(t) => Some(t.as_str()),
        None => None,
    };
    push_json_opt(&mut out, d);
    out.append(",\"name\":");
    push_json_text(&mut out, row.name.as_str());
    out.append(",\"slug\":");
    push_json_text(&mut out, row.slug.as_str());
    out.append("}");
    out
}

/// The snapshot of a partner's metadata before correlation:
/// `{"metadata":..}`.
pub open spec fn metadata_snapshot_text(metadata: Option<Seq<char>>) -> Seq<char> {
    "{\"metadata\":"@ + json_opt_text(metadata) + "}"@
}

/// The recorded snapshot of a partner transaction's metadata before it is
/// correlated.
pub fn metadata_snapshot(metadata: Option<&str>) -> (r: String)
    ensures
        r@ == metadata_snapshot_text(opt_text_view(metadata)),
{
    let mut out = "{\"metadata\":".to_string();
    push_json_opt(&mut out, metadata);
    out.append("}");
    out
}

/// The snapshot of a partner after correlation:
/// `{"correlated_with":<id>,"metadata":..}`.
pub open spec fn correlated_snapshot_text(metadata: Seq<char>, new_txn_id: int) -> Seq<char> {
    "{\"correlated_with\":"@ + int_decimal(new_txn_id) + ",\"metadata\":"@ + json_quoted(metadata)
        + "}"@
}

/// The recorded snapshot of a partner transaction once correlated with
/// `new_txn_id`.
pub fn correlated_snapshot(metadata: &str, new_txn_id: i64) -> (r: String)
    ensures
        r@ == correlated_snapshot_text(metadata@, new_txn_id as int),
{
    let mut out = "{\"correlated_with\":".to_string();
    push_json_int(&mut out, new_txn_id);
    out.append(",\"metadata\":");
    push_json_text(&mut out, metadata);
    out.append("}");
    out
}

} // verus!
