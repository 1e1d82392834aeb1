//! JSON output: every command's result wrapped in a uniform envelope,
//! `{ "ok": true, "meta": { "command", "company", "timestamp" }, "data" }`.
//! The values are built here; the command line turns them into
//! pretty-printed JSON text with `serde_json`. Amounts are raw integers in
//! minor units and enum values are lowercase.
use vstd::prelude::*;
use std::collections::HashMap;
use crate::cli::commands::import_ofx::{
    FailedTransaction, ImportResult, ImportedTransaction, SkippedTransaction,
};
use crate::cli::db::{
    AccountRow, AccountWithBalanceRow, AttachmentRow, BalanceRow, CompanyRow, EntryRow,
    OrphanedCorrelation, PostResult, TaxSummaryRow, TransactionRow,
};
pub use crate::cli::output::csv::normal_balance_for;
use crate::cli::output::normal_balance_text;
use crate::text::{all_digits, clamp_i64, saturating_add_i64};
use crate::cli::error::{error_code_of, is_error_text, CliError};

verus! {

/// Response metadata included in every envelope.
#[derive(Debug, Clone)]
pub struct Meta {
    /// The command, such as `company.list`.
    pub command: String,
    /// The company the command ran against, if any.
    pub company: Option<String>,
    /// When the response was made, in RFC 3339 form.
    pub timestamp: String,
}

/// The uniform response envelope.
#[derive(Debug, Clone)]
pub struct Envelope<T> {
    /// Whether the command succeeded.
    pub ok: bool,
    /// The response metadata.
    pub meta: Meta,
    /// The result, on success.
    pub data: Option<T>,
    /// The error, on failure.
    pub error: Option<EnvelopeError>,
}

/// The error payload of an envelope.
#[derive(Debug, Clone)]
pub struct EnvelopeError {
    /// A stable error code.
    pub code: String,
    /// The human-readable message.
    pub message: String,
}

/// Whether `t` is an RFC 3339 UTC time with whole seconds, as `chrono`
/// writes it: the year (four digits, or a sign and more digits outside
/// 0 to 9999), then `-MM-DDTHH:MM:SSZ` with two digits in each field.
pub open spec fn is_utc_timestamp(t: Seq<char>) -> bool {
    let n = t.len();
    let y = t.subrange(0, n - 16);
    let two = |i: int| all_digits(t.subrange(i, i + 2));
    &&& n >= 20
    &&& (y.len() == 4 && all_digits(y)) || (y.len() > 4 && (y[0] == '+' || y[0] == '-') && all_digits(
        y.subrange(1, y.len() as int),
    ))
    &&& t[n - 16] == '-' && two(n - 15) && t[n - 13] == '-' && two(n - 12)
    &&& t[n - 10] == 'T' && two(n - 9) && t[n - 7] == ':' && two(n - 6)
    &&& t[n - 4] == ':' && two(n - 3) && t[n - 1] == 'Z'
}

/// The current UTC time in RFC 3339 form with whole seconds and a `Z`
/// suffix (`chrono::Utc::now().to_rfc3339_opts(SecondsFormat::Secs,
/// true)`). Only its shape is stated: `chrono` writes the fields of the
/// clock's reading, whatever it is, in this form.
#[verifier::external_body]
fn now_timestamp() -> (r: String)
    ensures
        is_utc_timestamp(r@),
{
    chrono::Utc::now().to_rfc3339_opts(chrono::SecondsFormat::Secs, true)
}

/// `Some` of an owned copy of the text, or `None`.
fn owned_opt(o: Option<&str>) -> (r: Option<String>)
    ensures
        r matches Some(s) ==> o matches Some(t) && s@ == t@,
        r is None <==> o is None,
{
    match o {
        Some(t) => Some(t.to_string()),
        None => None,
    }
}

/// Metadata with the current UTC time as its timestamp.
pub fn meta(command: &str, company: Option<&str>) -> (m: Meta)
    ensures
        m.command@ == command@,
        m.company matches Some(s) ==> company matches Some(t) && s@ == t@,
        m.company is None <==> company is None,
        is_utc_timestamp(m.timestamp@),
{
    Meta { command: command.to_string(), company: owned_opt(company), timestamp: now_timestamp() }
}

/// Metadata with an explicit timestamp.
pub fn meta_with_timestamp(command: &str, company: Option<&str>, timestamp: String) -> (m: Meta)
    ensures
        m.command@ == command@,
        m.company matches Some(s) ==> company matches Some(t) && s@ == t@,
        m.company is None <==> company is None,
        m.timestamp == timestamp,
{
    Meta { command: command.to_string(), company: owned_opt(company), timestamp }
}

/// A success envelope: `ok`, the metadata and the data, no error.
pub open spec fn is_success<T>(e: Envelope<T>, meta: Meta) -> bool {
    &&& e.ok
    &&& e.meta == meta
    &&& e.data is Some
    &&& e.error is None
}

/// Wraps data in a success envelope.
fn envelope_ok<T>(meta: Meta, data: T) -> (e: Envelope<T>)
    ensures
        is_success(e, meta),
        e.data == Some(data),
{
    Envelope { ok: true, meta, data: Some(data), error: None }
}

/// The envelope of a failed command: not ok, without data, with the
/// error's named code and message.
pub fn render_error<T>(err: &CliError, meta: Meta) -> (r: Envelope<T>)
    ensures
        !r.ok,
        r.meta == meta,
        r.data is None,
        r.error matches Some(e) && e.code@ == error_code_of(*err) && is_error_text(*err, e.message@),
{
    let code = err.error_code().to_string();
    let message = err.to_string();
    Envelope { ok: false, meta, data: None, error: Some(EnvelopeError { code, message }) }
}

/// A copy of an optional string.
fn clone_opt(o: &Option<String>) -> (r: Option<String>)
    ensures
        r == *o,
{
    match o {
        Some(s) => Some(s.clone()),
        None => None,
    }
}

/// A company in JSON.
#[derive(Debug, Clone)]
pub struct CompanyJson {
    pub slug: String,
    pub name: String,
    pub description: Option<String>,
    pub created_at: String,
}

/// The JSON form of a company row.
pub open spec fn company_json(c: CompanyRow) -> CompanyJson {
    CompanyJson { slug: c.slug, name: c.name, description: c.description, created_at: c.created_at }
}

/// Renders companies in an envelope.
pub fn render_companies(companies: &[CompanyRow], meta: Meta) -> (r: Envelope<Vec<CompanyJson>>)
    ensures
        is_success(r, meta),
        r.data matches Some(v) && v@ == companies@.map_values(|c: CompanyRow| company_json(c)),
{
    let mut rows: Vec<CompanyJson> = Vec::new();
    let mut i: usize = 0;
    while i < companies.len()
        invariant
            i <= companies@.len(),
            rows@ == companies@.take(i as int).map_values(|c: CompanyRow| company_json(c)),
        decreases companies@.len() - i,
    {
        let c = &companies[i];
        rows.push(
            CompanyJson {
                slug: c.slug.clone(),
                name: c.name.clone(),
                description: clone_opt(&c.description),
                created_at: c.created_at.clone(),
            },
        );
        assert(companies@.take(i + 1).map_values(|c: CompanyRow| company_json(c)) =~= companies@.take(
            i as int,
        ).map_values(|c: CompanyRow| company_json(c)).push(company_json(*c)));
        i = i + 1;
    }
    assert(companies@.take(i as int) =~= companies@);
    envelope_ok(meta, rows)
}

/// An account in JSON; `account_type` is written as `type`.
#[derive(Debug, Clone)]
pub struct AccountJson {
    pub code: String,
    pub name: String,
    pub account_type: String,
    pub normal_balance: String,
}

/// The JSON form of an account row, with its normal-balance side.
pub open spec fn account_json_matches(j: AccountJson, a: AccountRow) -> bool {
    &&& j.code == a.code
    &&& j.name == a.name
    &&& j.account_type == a.account_type
    &&& j.normal_balance@ == normal_balance_text(a.account_type@)
}

/// Renders accounts in an envelope, each with its normal-balance side.
pub fn render_accounts(accounts: &[AccountRow], meta: Meta) -> (r: Envelope<Vec<AccountJson>>)
    ensures
        is_success(r, meta),
        r.data matches Some(v) && v@.len() == accounts@.len() && forall|i: int|
            0 <= i < v@.len() ==> account_json_matches(#[trigger] v@[i], accounts@[i]),
{
    let mut rows: Vec<AccountJson> = Vec::new();
    let mut i: usize = 0;
    while i < accounts.len()
        invariant
            i <= accounts@.len(),
            rows@.len() == i,
            forall|k: int| 0 <= k < i ==> account_json_matches(#[trigger] rows@[k], accounts@[k]),
        decreases accounts@.len() - i,
    {
        let a = &accounts[i];
        rows.push(
            AccountJson {
                code: a.code.clone(),
                name: a.name.clone(),
                account_type: a.account_type.clone(),
                normal_balance: normal_balance_for(a.account_type.as_str()).to_string(),
            },
        );
        i = i + 1;
    }
    envelope_ok(meta, rows)
}

/// An entry in JSON.
#[derive(Debug, Clone)]
pub struct EntryJson {
    pub account_code: String,
    pub direction: String,
    pub amount: i64,
    pub memo: Option<String>,
    pub tax_category: Option<String>,
}

/// The JSON form of an entry row.
pub open spec fn entry_json(e: EntryRow) -> EntryJson {
    EntryJson {
        account_code: e.account_code,
        direction: e.direction,
        amount: e.amount,
        memo: e.memo,
        tax_category: e.tax_category,
    }
}

/// The entries recorded for a transaction id: those in the map, or none.
pub open spec fn entries_of(m: Map<i64, Vec<EntryRow>>, id: i64) -> Seq<EntryRow> {
    if m.dom().contains(id) {
        m[id]@
    } else {
        Seq::empty()
    }
}

/// The JSON forms of entry rows.
fn entries_json(rows: &Vec<EntryRow>) -> (r: Vec<EntryJson>)
    ensures
        r@ == rows@.map_values(|e: EntryRow| entry_json(e)),
{
    let mut out: Vec<EntryJson> = Vec::new();
    let mut i: usize = 0;
    while i < rows.len()
        invariant
            i <= rows@.len(),
            out@ == rows@.take(i as int).map_values(|e: EntryRow| entry_json(e)),
        decreases rows@.len() - i,
    {
        let e = &rows[i];
        out.push(
            EntryJson {
                account_code: e.account_code.clone(),
                direction: e.direction.clone(),
                amount: e.amount,
                memo: clone_opt(&e.memo),
                tax_category: clone_opt(&e.tax_category),
            },
        );
        assert(rows@.take(i + 1).map_values(|e: EntryRow| entry_json(e)) =~= rows@.take(
            i as int,
        ).map_values(|e: EntryRow| entry_json(e)).push(entry_json(*e)));
        i = i + 1;
    }
    assert(rows@.take(i as int) =~= rows@);
    out
}

/// The JSON forms of a transaction's entries in the map, or none.
fn entries_for(m: &HashMap<i64, Vec<EntryRow>>, id: i64) -> (r: Vec<EntryJson>)
    ensures
        r@ == entries_of(m@, id).map_values(|e: EntryRow| entry_json(e)),
{
    proof {
        broadcast use vstd::std_specs::hash::group_hash_axioms;
    }
    match m.get(&id) {
        Some(rows) => entries_json(rows),
        None => {
            let v: Vec<EntryJson> = Vec::new();
            assert(v@ =~= entries_of(m@, id).map_values(|e: EntryRow| entry_json(e)));
            v
        },
    }
}

/// A transaction in JSON, with its entries.
#[derive(Debug, Clone)]
pub struct TransactionJson {
    pub id: i64,
    pub description: String,
    pub metadata: Option<String>,
    pub reference: Option<String>,
    pub currency: String,
    pub date: String,
    pub entries: Vec<EntryJson>,
}

/// The JSON form of a transaction row with the given entries.
pub open spec fn transaction_json_matches(j: TransactionJson, t: TransactionRow, es: Seq<EntryRow>) -> bool {
    &&& j.id == t.id
    &&& j.description == t.description
    &&& j.metadata == t.metadata
    &&& j.reference == t.reference
    &&& j.currency == t.currency
    &&& j.date == t.date
    &&& j.entries@ == es.map_values(|e: EntryRow| entry_json(e))
}

/// Renders transactions with their entries in an envelope; a transaction
/// with no entries in the map gets an empty list.
pub fn render_transactions(
    transactions: &[TransactionRow],
    entries_map: &HashMap<i64, Vec<EntryRow>>,
    meta: Meta,
) -> (r: Envelope<Vec<TransactionJson>>)
    ensures
        is_success(r, meta),
        r.data matches Some(v) && v@.len() == transactions@.len() && forall|i: int|
            0 <= i < v@.len() ==> transaction_json_matches(
                #[trigger] v@[i],
                transactions@[i],
                entries_of(entries_map@, transactions@[i].id),
            ),
{
    let mut rows: Vec<TransactionJson> = Vec::new();
    let mut i: usize = 0;
    while i < transactions.len()
        invariant
            i <= transactions@.len(),
            rows@.len() == i,
            forall|k: int|
                0 <= k < i ==> transaction_json_matches(
                    #[trigger] rows@[k],
                    transactions@[k],
                    entries_of(entries_map@, transactions@[k].id),
                ),
        decreases transactions@.len() - i,
    {
        let t = &transactions[i];
        rows.push(
            TransactionJson {
                id: t.id,
                description: t.description.clone(),
                metadata: clone_opt(&t.metadata),
                reference: clone_opt(&t.reference),
                currency: t.currency.clone(),
                date: t.date.clone(),
                entries: entries_for(entries_map, t.id),
            },
        );
        i = i + 1;
    }
    envelope_ok(meta, rows)
}

/// An attachment in JSON.
#[derive(Debug, Clone)]
pub struct AttachmentJson {
    pub id: i64,
    pub document_type: String,
    pub uri: String,
    pub hash: Option<String>,
    pub original_filename: Option<String>,
    pub attached_at: String,
}

/// The JSON form of an attachment row.
pub open spec fn attachment_json(a: AttachmentRow) -> AttachmentJson {
    AttachmentJson {
        id: a.id,
        document_type: a.document_type,
        uri: a.uri,
        hash: a.hash,
        original_filename: a.original_filename,
        attached_at: a.attached_at,
    }
}

/// The attachments recorded for a transaction id: those in the map, or
/// none.
pub open spec fn attachments_of(m: Map<i64, Vec<AttachmentRow>>, id: i64) -> Seq<AttachmentRow> {
    if m.dom().contains(id) {
        m[id]@
    } else {
        Seq::empty()
    }
}

/// The JSON forms of a transaction's attachments in the map, or none.
fn attachments_for(m: &HashMap<i64, Vec<AttachmentRow>>, id: i64) -> (r: Vec<AttachmentJson>)
    ensures
        r@ == attachments_of(m@, id).map_values(|a: AttachmentRow| attachment_json(a)),
{
    proof {
        broadcast use vstd::std_specs::hash::group_hash_axioms;
    }
    let mut out: Vec<AttachmentJson> = Vec::new();
    match m.get(&id) {
        Some(rows) => {
            let mut i: usize = 0;
            while i < rows.len()
                invariant
                    i <= rows@.len(),
                    rows@ == attachments_of(m@, id),
                    out@ == rows@.take(i as int).map_values(|a: AttachmentRow| attachment_json(a)),
                decreases rows@.len() - i,
            {
                let a = &rows[i];
                out.push(
                    AttachmentJson {
                        id: a.id,
                        document_type: a.document_type.clone(),
                        uri: a.uri.clone(),
                        hash: clone_opt(&a.hash),
                        original_filename: clone_opt(&a.original_filename),
                        attached_at: a.attached_at.clone(),
                    },
                );
                assert(rows@.take(i + 1).map_values(|a: AttachmentRow| attachment_json(a))
                    =~= rows@.take(i as int).map_values(|a: AttachmentRow| attachment_json(a)).push(
                    attachment_json(*a),
                ));
                i = i + 1;
            }
            assert(rows@.take(i as int) =~= rows@);
        },
        None => {
            assert(out@ =~= attachments_of(m@, id).map_values(
                |a: AttachmentRow| attachment_json(a),
            ));
        },
    }
    out
}

/// A transaction in JSON, with its entries and attachments.
#[derive(Debug, Clone)]
pub struct TransactionWithAttachmentsJson {
    pub id: i64,
    pub description: String,
    pub metadata: Option<String>,
    pub reference: Option<String>,
    pub currency: String,
    pub date: String,
    pub entries: Vec<EntryJson>,
    pub attachments: Vec<AttachmentJson>,
}

/// Renders transactions with their entries and attachments in an
/// envelope; a transaction missing from a map gets an empty list.
pub fn render_transactions_with_attachments(
    transactions: &[TransactionRow],
    entries_map: &HashMap<i64, Vec<EntryRow>>,
    attachments_map: &HashMap<i64, Vec<AttachmentRow>>,
    meta: Meta,
) -> (r: Envelope<Vec<TransactionWithAttachmentsJson>>)
    ensures
        is_success(r, meta),
        r.data matches Some(v) && v@.len() == transactions@.len() && forall|i: int|
            0 <= i < v@.len() ==> {
                let j = #[trigger] v@[i];
                let t = transactions@[i];
                &&& j.id == t.id
                &&& j.description == t.description
                &&& j.metadata == t.metadata
                &&& j.reference == t.reference
                &&& j.currency == t.currency
                &&& j.date == t.date
                &&& j.entries@ == entries_of(entries_map@, t.id).map_values(
                    |e: EntryRow| entry_json(e),
                )
                &&& j.attachments@ == attachments_of(attachments_map@, t.id).map_values(
                    |a: AttachmentRow| attachment_json(a),
                )
            },
{
    let mut rows: Vec<TransactionWithAttachmentsJson> = Vec::new();
    let mut i: usize = 0;
    while i < transactions.len()
        invariant
            i <= transactions@.len(),
            rows@.len() == i,
            forall|k: int|
                0 <= k < i ==> {
                    let j = #[trigger] rows@[k];
                    let t = transactions@[k];
                    &&& j.id == t.id
                    &&& j.description == t.description
                    &&& j.metadata == t.metadata
                    &&& j.reference == t.reference
                    &&& j.currency == t.currency
                    &&& j.date == t.date
                    &&& j.entries@ == entries_of(entries_map@, t.id).map_values(
                        |e: EntryRow| entry_json(e),
                    )
                    &&& j.attachments@ == attachments_of(attachments_map@, t.id).map_values(
                        |a: AttachmentRow| attachment_json(a),
                    )
                },
        decreases transactions@.len() - i,
    {
        let t = &transactions[i];
        rows.push(
            TransactionWithAttachmentsJson {
                id: t.id,
                description: t.description.clone(),
                metadata: clone_opt(&t.metadata),
                reference: clone_opt(&t.reference),
                currency: t.currency.clone(),
                date: t.date.clone(),
                entries: entries_for(entries_map, t.id),
                attachments: attachments_for(attachments_map, t.id),
            },
        );
        i = i + 1;
    }
    envelope_ok(meta, rows)
}

/// One account of a trial balance in JSON; `account_type` is written as
/// `type`.
#[derive(Debug, Clone)]
pub struct TrialBalanceAccountJson {
    pub code: String,
    pub name: String,
    pub account_type: String,
    pub debit_total: i64,
    pub credit_total: i64,
}

/// A trial balance in JSON: the accounts, the totals and whether they
/// balance.
#[derive(Debug, Clone)]
pub struct TrialBalanceJson {
    pub accounts: Vec<TrialBalanceAccountJson>,
    pub total_debits: i64,
    pub total_credits: i64,
    pub balanced: bool,
}

/// The JSON form of one balance row in a trial balance.
pub open spec fn trial_account_json(b: BalanceRow) -> TrialBalanceAccountJson {
    TrialBalanceAccountJson {
        code: b.code,
        name: b.name,
        account_type: b.account_type,
        debit_total: b.debit_total,
        credit_total: b.credit_total,
    }
}

/// The debit and credit totals of balance rows, each a running sum that
/// saturates at the bounds of `i64`.
pub open spec fn saturated_totals(bs: Seq<BalanceRow>) -> (int, int)
    decreases bs.len(),
{
    if bs.len() == 0 {
        (0, 0)
    } else {
        let (d, c) = saturated_totals(bs.drop_last());
        (clamp_i64(d + bs.last().debit_total), clamp_i64(c + bs.last().credit_total))
    }
}

/// Renders a trial balance in an envelope, with the accounts, the grand
/// totals and whether they are equal.
pub fn render_trial_balance(balances: &[BalanceRow], meta: Meta) -> (r: Envelope<TrialBalanceJson>)
    ensures
        is_success(r, meta),
        r.data matches Some(t) && {
            &&& t.accounts@ == balances@.map_values(|b: BalanceRow| trial_account_json(b))
            &&& t.total_debits == saturated_totals(balances@).0
            &&& t.total_credits == saturated_totals(balances@).1
            &&& t.balanced == (t.total_debits == t.total_credits)
        },
{
    let mut total_debits: i64 = 0;
    let mut total_credits: i64 = 0;
    let mut accounts: Vec<TrialBalanceAccountJson> = Vec::new();
    let mut i: usize = 0;
    while i < balances.len()
        invariant
            i <= balances@.len(),
            accounts@ == balances@.take(i as int).map_values(|b: BalanceRow| trial_account_json(b)),
            (total_debits as int, total_credits as int) == saturated_totals(balances@.take(i as int)),
        decreases balances@.len() - i,
    {
        let b = &balances[i];
        total_debits = saturating_add_i64(total_debits, b.debit_total);
        total_credits = saturating_add_i64(total_credits, b.credit_total);
        accounts.push(
            TrialBalanceAccountJson {
                code: b.code.clone(),
                name: b.name.clone(),
                account_type: b.account_type.clone(),
                debit_total: b.debit_total,
                credit_total: b.credit_total,
            },
        );
        proof {
            let t = balances@.take(i + 1);
            assert(t.drop_last() =~= balances@.take(i as int));
            assert(t.map_values(|b: BalanceRow| trial_account_json(b)) =~= balances@.take(
                i as int,
            ).map_values(|b: BalanceRow| trial_account_json(b)).push(trial_account_json(*b)));
        }
        i = i + 1;
    }
    assert(balances@.take(i as int) =~= balances@);
    let result = TrialBalanceJson {
        accounts,
        total_debits,
        total_credits,
        balanced: total_debits == total_credits,
    };
    envelope_ok(meta, result)
}

/// One account's balance in JSON; `account_type` is written as `type`.
#[derive(Debug, Clone)]
pub struct BalanceJson {
    pub code: String,
    pub name: String,
    pub account_type: String,
    pub debit_total: i64,
    pub credit_total: i64,
    pub currency: String,
}

/// Renders one account's balance in an envelope.
pub fn render_account_balance(balance: &BalanceRow, currency: &str, meta: Meta) -> (r: Envelope<
    BalanceJson,
>)
    ensures
        is_success(r, meta),
        r.data matches Some(b) && {
            &&& b.code == balance.code
            &&& b.name == balance.name
            &&& b.account_type == balance.account_type
            &&& b.debit_total == balance.debit_total
            &&& b.credit_total == balance.credit_total
            &&& b.currency@ == currency@
        },
{
    let json = BalanceJson {
        code: balance.code.clone(),
        name: balance.name.clone(),
        account_type: balance.account_type.clone(),
        debit_total: balance.debit_total,
        credit_total: balance.credit_total,
        currency: currency.to_string(),
    };
    envelope_ok(meta, json)
}

/// An orphaned intercompany correlation in JSON.
#[derive(Debug, Clone)]
pub struct OrphanedCorrelationJson {
    pub transaction_id: i64,
    pub company: String,
    pub description: String,
    pub date: String,
    pub partner_id: i64,
}

/// The JSON form of an orphaned correlation.
pub open spec fn orphan_json(o: OrphanedCorrelation) -> OrphanedCorrelationJson {
    OrphanedCorrelationJson {
        transaction_id: o.transaction_id,
        company: o.company_slug,
        description: o.description,
        date: o.date,
        partner_id: o.partner_id,
    }
}

/// Renders orphaned intercompany correlations in an envelope.
pub fn render_orphaned_correlations(orphans: &[OrphanedCorrelation], meta: Meta) -> (r: Envelope<
    Vec<OrphanedCorrelationJson>,
>)
    ensures
        is_success(r, meta),
        r.data matches Some(v) && v@ == orphans@.map_values(|o: OrphanedCorrelation| orphan_json(o)),
{
    let mut rows: Vec<OrphanedCorrelationJson> = Vec::new();
    let mut i: usize = 0;
    while i < orphans.len()
        invariant
            i <= orphans@.len(),
            rows@ == orphans@.take(i as int).map_values(|o: OrphanedCorrelation| orphan_json(o)),
        decreases orphans@.len() - i,
    {
        let o = &orphans[i];
        rows.push(
            OrphanedCorrelationJson {
                transaction_id: o.transaction_id,
                company: o.company_slug.clone(),
                description: o.description.clone(),
                date: o.date.clone(),
                partner_id: o.partner_id,
            },
        );
        assert(orphans@.take(i + 1).map_values(|o: OrphanedCorrelation| orphan_json(o))
            =~= orphans@.take(i as int).map_values(|o: OrphanedCorrelation| orphan_json(o)).push(
            orphan_json(*o),
        ));
        i = i + 1;
    }
    assert(orphans@.take(i as int) =~= orphans@);
    envelope_ok(meta, rows)
}

/// One tax category's totals in JSON.
#[derive(Debug, Clone)]
pub struct TaxSummaryEntryJson {
    pub tax_category: String,
    pub debit_total: i64,
    pub credit_total: i64,
}

/// The JSON form of a tax summary row.
pub open spec fn tax_summary_json(t: TaxSummaryRow) -> TaxSummaryEntryJson {
    TaxSummaryEntryJson {
        tax_category: t.tax_category,
        debit_total: t.debit_total,
        credit_total: t.credit_total,
    }
}

/// Renders a tax summary in an envelope.
pub fn render_tax_summary(rows: &[TaxSummaryRow], meta: Meta) -> (r: Envelope<
    Vec<TaxSummaryEntryJson>,
>)
    ensures
        is_success(r, meta),
        r.data matches Some(v) && v@ == rows@.map_values(|t: TaxSummaryRow| tax_summary_json(t)),
{
    let mut out: Vec<TaxSummaryEntryJson> = Vec::new();
    let mut i: usize = 0;
    while i < rows.len()
        invariant
            i <= rows@.len(),
            out@ == rows@.take(i as int).map_values(|t: TaxSummaryRow| tax_summary_json(t)),
        decreases rows@.len() - i,
    {
        let t = &rows[i];
        out.push(
            TaxSummaryEntryJson {
                tax_category: t.tax_category.clone(),
                debit_total: t.debit_total,
                credit_total: t.credit_total,
            },
        );
        assert(rows@.take(i + 1).map_values(|t: TaxSummaryRow| tax_summary_json(t)) =~= rows@.take(
            i as int,
        ).map_values(|t: TaxSummaryRow| tax_summary_json(t)).push(tax_summary_json(*t)));
        i = i + 1;
    }
    assert(rows@.take(i as int) =~= rows@);
    envelope_ok(meta, out)
}

/// An account with its totals in JSON; `account_type` is written as
/// `type`.
#[derive(Debug, Clone)]
pub struct AccountWithBalanceJson {
    pub code: String,
    pub name: String,
    pub account_type: String,
    pub normal_balance: String,
    pub default_tax_category: Option<String>,
    pub debit_total: i64,
    pub credit_total: i64,
}

/// The JSON form of an account with its totals.
pub open spec fn account_with_balance_json_matches(j: AccountWithBalanceJson, a: AccountWithBalanceRow) -> bool {
    &&& j.code == a.code
    &&& j.name == a.name
    &&& j.account_type == a.account_type
    &&& j.normal_balance@ == normal_balance_text(a.account_type@)
    &&& j.default_tax_category == a.default_tax_category
    &&& j.debit_total == a.debit_total
    &&& j.credit_total == a.credit_total
}

/// Renders accounts with their totals in an envelope.
pub fn render_accounts_with_balances(rows: &[AccountWithBalanceRow], meta: Meta) -> (r: Envelope<
    Vec<AccountWithBalanceJson>,
>)
    ensures
        is_success(r, meta),
        r.data matches Some(v) && v@.len() == rows@.len() && forall|i: int|
            0 <= i < v@.len() ==> account_with_balance_json_matches(#[trigger] v@[i], rows@[i]),
{
    let mut out: Vec<AccountWithBalanceJson> = Vec::new();
    let mut i: usize = 0;
    while i < rows.len()
        invariant
            i <= rows@.len(),
            out@.len() == i,
            forall|k: int| 0 <= k < i ==> account_with_balance_json_matches(#[trigger] out@[k], rows@[k]),
        decreases rows@.len() - i,
    {
        let a = &rows[i];
        out.push(
            AccountWithBalanceJson {
                code: a.code.clone(),
                name: a.name.clone(),
                account_type: a.account_type.clone(),
                normal_balance: normal_balance_for(a.account_type.as_str()).to_string(),
                default_tax_category: clone_opt(&a.default_tax_category),
                debit_total: a.debit_total,
                credit_total: a.credit_total,
            },
        );
        i = i + 1;
    }
    envelope_ok(meta, out)
}

/// A count in JSON.
#[derive(Debug, Clone)]
pub struct CountJson {
    pub count: i64,
}

/// Renders a count in an envelope.
pub fn render_count(count: i64, meta: Meta) -> (r: Envelope<CountJson>)
    ensures
        is_success(r, meta),
        r.data == Some(CountJson { count }),
{
    envelope_ok(meta, CountJson { count })
}

/// A deletion confirmation in JSON.
#[derive(Debug, Clone)]
pub struct DeletedJson {
    pub deleted: String,
}

/// Renders a deletion confirmation in an envelope.
pub fn render_deleted(slug: &str, meta: Meta) -> (r: Envelope<DeletedJson>)
    ensures
        is_success(r, meta),
        r.data matches Some(d) && d.deleted@ == slug@,
{
    envelope_ok(meta, DeletedJson { deleted: slug.to_string() })
}

/// The outcome of posting a transaction in JSON: `id` when created,
/// `existing_id` when skipped as a duplicate.
#[derive(Debug, Clone)]
pub struct PostResultJson {
    pub id: Option<i64>,
    pub existing_id: Option<i64>,
    pub created: bool,
    pub skipped: bool,
}

/// The JSON form of a post outcome.
pub open spec fn post_result_json(r: PostResult) -> PostResultJson {
    match r {
        PostResult::Created(id) => PostResultJson {
            id: Some(id),
            existing_id: None,
            created: true,
            skipped: false,
        },
        PostResult::Skipped(id) => PostResultJson {
            id: None,
            existing_id: Some(id),
            created: false,
            skipped: true,
        },
    }
}

/// Renders the outcome of posting a transaction in an envelope.
pub fn render_post_result(result: PostResult, meta: Meta) -> (r: Envelope<PostResultJson>)
    ensures
        is_success(r, meta),
        r.data == Some(post_result_json(result)),
{
    let json = match result {
        PostResult::Created(id) => PostResultJson {
            id: Some(id),
            existing_id: None,
            created: true,
            skipped: false,
        },
        PostResult::Skipped(id) => PostResultJson {
            id: None,
            existing_id: Some(id),
            created: false,
            skipped: true,
        },
    };
    envelope_ok(meta, json)
}

/// An attachment confirmation in JSON.
#[derive(Debug, Clone)]
pub struct AttachedJson {
    pub id: i64,
    pub transaction_id: i64,
}

/// Renders a `txn attach` confirmation in an envelope.
pub fn render_attached(attachment_id: i64, transaction_id: i64, meta: Meta) -> (r: Envelope<
    AttachedJson,
>)
    ensures
        is_success(r, meta),
        r.data == Some(AttachedJson { id: attachment_id, transaction_id }),
{
    envelope_ok(meta, AttachedJson { id: attachment_id, transaction_id })
}

/// An `init` confirmation in JSON.
#[derive(Debug, Clone)]
pub struct InitJson {
    pub path: String,
}

/// Renders an `init` confirmation in an envelope.
pub fn render_init(path: &str, meta: Meta) -> (r: Envelope<InitJson>)
    ensures
        is_success(r, meta),
        r.data matches Some(d) && d.path@ == path@,
{
    envelope_ok(meta, InitJson { path: path.to_string() })
}

/// A `verify` confirmation in JSON.
#[derive(Debug, Clone)]
pub struct VerifyJson {
    pub schema_version: i64,
    pub status: String,
}

/// Renders a `verify` confirmation in an envelope, with the status
/// `healthy`.
pub fn render_verify(schema_version: i64, meta: Meta) -> (r: Envelope<VerifyJson>)
    ensures
        is_success(r, meta),
        r.data matches Some(d) && d.schema_version == schema_version && d.status@ == "healthy"@,
{
    envelope_ok(meta, VerifyJson { schema_version, status: "healthy".to_string() })
}

/// One transaction of an import in JSON.
#[derive(Debug, Clone)]
pub struct ImportTransactionJson {
    pub id: Option<i64>,
    pub date: String,
    pub description: String,
    pub amount: i64,
    pub status: String,
    pub reason: Option<String>,
}

/// The outcome of an import in JSON.
#[derive(Debug, Clone)]
pub struct ImportResultJson {
    pub dry_run: bool,
    pub imported: usize,
    pub skipped: usize,
    pub errors: usize,
    pub transactions: Vec<ImportTransactionJson>,
}

/// An imported transaction in JSON: its id unless the run was dry.
pub open spec fn imported_json_matches(j: ImportTransactionJson, t: ImportedTransaction, dry_run: bool) -> bool {
    &&& j.id == (if dry_run {
        None
    } else {
        Some(t.id)
    })
    &&& j.date == t.date
    &&& j.description == t.description
    &&& j.amount == t.amount_minor
    &&& j.status@ == "imported"@
    &&& j.reason is None
}

/// A transaction skipped as a duplicate, in JSON.
pub open spec fn skipped_json_matches(j: ImportTransactionJson, t: SkippedTransaction) -> bool {
    &&& j.id is None
    &&& j.date == t.date
    &&& j.description == t.description
    &&& j.amount == t.amount_minor
    &&& j.status@ == "skipped"@
    &&& j.reason matches Some(r) && r@ == "duplicate"@
}

/// A transaction that failed to import, in JSON, with the reason.
pub open spec fn failed_json_matches(j: ImportTransactionJson, t: FailedTransaction) -> bool {
    &&& j.id is None
    &&& j.date == t.date
    &&& j.description == t.description
    &&& j.amount == t.amount_minor
    &&& j.status@ == "error"@
    &&& j.reason == Some(t.error)
}

/// Renders the outcome of an import in an envelope: the counts, then the
/// imported, skipped and failed transactions in that order.
pub fn render_import_result(result: &ImportResult, dry_run: bool, meta: Meta) -> (r: Envelope<
    ImportResultJson,
>)
    ensures
        is_success(r, meta),
        r.data matches Some(d) && {
            let ni = result.imported@.len() as int;
            let ns = result.skipped@.len() as int;
            let ne = result.errors@.len() as int;
            &&& d.dry_run == dry_run
            &&& d.imported == ni
            &&& d.skipped == ns
            &&& d.errors == ne
            &&& d.transactions@.len() == ni + ns + ne
            &&& forall|i: int|
                0 <= i < ni ==> imported_json_matches(
                    #[trigger] d.transactions@[i],
                    result.imported@[i],
                    dry_run,
                )
            &&& forall|i: int|
                0 <= i < ns ==> skipped_json_matches(
                    #[trigger] d.transactions@[ni + i],
                    result.skipped@[i],
                )
            &&& forall|i: int|
                0 <= i < ne ==> failed_json_matches(
                    #[trigger] d.transactions@[ni + ns + i],
                    result.errors@[i],
                )
        },
{
    let ni = result.imported.len();
    let ns = result.skipped.len();
    let ne = result.errors.len();
    let mut transactions: Vec<ImportTransactionJson> = Vec::new();
    let mut i: usize = 0;
    while i < ni
        invariant
            i <= ni == result.imported@.len(),
            transactions@.len() == i,
            forall|k: int|
                0 <= k < i ==> imported_json_matches(
                    #[trigger] transactions@[k],
                    result.imported@[k],
                    dry_run,
                ),
        decreases ni - i,
    {
        let t = &result.imported[i];
        transactions.push(
            ImportTransactionJson {
                id: if dry_run {
                    None
                } else {
                    Some(t.id)
                },
                date: t.date.clone(),
                description: t.description.clone(),
                amount: t.amount_minor,
                status: "imported".to_string(),
                reason: None,
            },
        );
        i = i + 1;
    }
    let mut j: usize = 0;
    while j < ns
        invariant
            j <= ns == result.skipped@.len(),
            ni == result.imported@.len(),
            transactions@.len() == ni + j,
            forall|k: int|
                0 <= k < ni ==> imported_json_matches(
                    #[trigger] transactions@[k],
                    result.imported@[k],
                    dry_run,
                ),
            forall|k: int|
                0 <= k < j ==> skipped_json_matches(
                    #[trigger] transactions@[ni + k],
                    result.skipped@[k],
                ),
        decreases ns - j,
    {
        let t = &result.skipped[j];
        transactions.push(
            ImportTransactionJson {
                id: None,
                date: t.date.clone(),
                description: t.description.clone(),
                amount: t.amount_minor,
                status: "skipped".to_string(),
                reason: Some("duplicate".to_string()),
            },
        );
        j = j + 1;
    }
    let mut k: usize = 0;
    while k < ne
        invariant
            k <= ne == result.errors@.len(),
            ni == result.imported@.len(),
            ns == result.skipped@.len(),
            transactions@.len() == ni + ns + k,
            forall|m: int|
                0 <= m < ni ==> imported_json_matches(
                    #[trigger] transactions@[m],
                    result.imported@[m],
                    dry_run,
                ),
            forall|m: int|
                0 <= m < ns ==> skipped_json_matches(
                    #[trigger] transactions@[ni + m],
                    result.skipped@[m],
                ),
            forall|m: int|
                0 <= m < k ==> failed_json_matches(
                    #[trigger] transactions@[ni + ns + m],
                    result.errors@[m],
                ),
        decreases ne - k,
    {
        let t = &result.errors[k];
        transactions.push(
            ImportTransactionJson {
                id: None,
                date: t.date.clone(),
                description: t.description.clone(),
                amount: t.amount_minor,
                status: "error".to_string(),
                reason: Some(t.error.clone()),
            },
        );
        k = k + 1;
    }
    envelope_ok(
        meta,
        ImportResultJson { dry_run, imported: ni, skipped: ns, errors: ne, transactions },
    )
}

} // verus!
