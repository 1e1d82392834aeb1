//! Transactions: posting parameters, listing queries and metadata merging.
use vstd::prelude::*;
use crate::cli::error::CliError;
use crate::text_order::{text_le, text_lt};
use crate::text::{
    ascii_lower_seq, contains_text, eq_ignore_ascii_case, has_substring, i128_to_string, int_decimal,
    nat_digits, occurs_at, push_u128_digits, trim_front, u128_to_string,
};

verus! {

/// A single entry to be posted as part of a transaction.
#[derive(Debug, Clone)]
pub struct PostEntryParams {
    /// The account code.
    pub account_code: String,
    /// `debit` or `credit`.
    pub direction: String,
    /// The amount in minor units.
    pub amount: i64,
    /// An optional memo.
    pub memo: Option<String>,
    /// An optional tax category.
    pub tax_category: Option<String>,
}

/// Conflict resolution strategy for duplicate references.
#[derive(Debug, Clone, Copy, PartialEq, Eq, Structural)]
pub enum ConflictStrategy {
    /// Return an error on a duplicate reference (the default).
    Error,
    /// Skip the transaction silently on a duplicate reference.
    Skip,
    /// Update the existing transaction.
    Upsert,
}

impl Default for ConflictStrategy {
    fn default() -> (c: ConflictStrategy)
        ensures
            c == ConflictStrategy::Error,
    {
        ConflictStrategy::Error
    }
}

/// Parameters for posting a new transaction.
pub struct PostTransactionParams<'a> {
    /// The company.
    pub company_slug: &'a str,
    /// The description.
    pub description: &'a str,
    /// Optional metadata.
    pub metadata: Option<&'a str>,
    /// The currency code.
    pub currency: &'a str,
    /// The date, `YYYY-MM-DD`.
    pub date: &'a str,
    /// The entries.
    pub entries: &'a [PostEntryParams],
    /// An existing transaction of another company to correlate with.
    pub correlate: Option<i64>,
    /// The idempotency reference; duplicates per company are rejected.
    pub reference: Option<&'a str>,
    /// How to handle duplicate references.
    pub on_conflict: ConflictStrategy,
}

/// An orphaned intercompany correlation found by reconcile.
#[derive(Debug, Clone)]
pub struct OrphanedCorrelation {
    /// The transaction that has a correlate reference.
    pub transaction_id: i64,
    /// The company this transaction belongs to.
    pub company_slug: String,
    /// The transaction description.
    pub description: String,
    /// The transaction date.
    pub date: String,
    /// The partner transaction id referenced in metadata.
    pub partner_id: i64,
}

/// Outcome of a transaction post operation.
#[derive(Debug, Clone, Copy, PartialEq, Eq, Structural)]
pub enum PostResult {
    /// A new transaction was created.
    Created(i64),
    /// A duplicate reference was found and the post skipped; holds the
    /// existing transaction's id.
    Skipped(i64),
}

/// The JSON string literal `serde_json` writes for a text: in quotes, with
/// `"` and `\` escaped, the control characters `\b`, `\t`, `\n`, `\f` and
/// `\r` in short form and the other control characters below `0x20` as
/// `\u00XX` in lowercase hexadecimal.
pub open spec fn json_quoted(s: Seq<char>) -> Seq<char> {
    seq!['"'] + json_escaped(s) + seq!['"']
}

/// The escaped contents of a JSON string literal.
pub open spec fn json_escaped(s: Seq<char>) -> Seq<char>
    decreases s.len(),
{
    if s.len() == 0 {
        Seq::empty()
    } else {
        json_escaped(s.drop_last()) + json_escape_char(s.last())
    }
}

/// The lowercase hexadecimal digit of a value below 16.
pub open spec fn lower_hex_digit(v: int) -> char {
    if v < 10 {
        (('0' as int) + v) as char
    } else {
        (('a' as int) + (v - 10)) as char
    }
}

/// How one character is written inside a JSON string literal.
pub open spec fn json_escape_char(c: char) -> Seq<char> {
    if c == '"' {
        seq!['\\', '"']
    } else if c == '\\' {
        seq!['\\', '\\']
    } else if c == '\u{8}' {
        seq!['\\', 'b']
    } else if c == '\t' {
        seq!['\\', 't']
    } else if c == '\n' {
        seq!['\\', 'n']
    } else if c == '\u{c}' {
        seq!['\\', 'f']
    } else if c == '\r' {
        seq!['\\', 'r']
    } else if (c as int) < 0x20 {
        seq!['\\', 'u', '0', '0', lower_hex_digit(c as int / 16), lower_hex_digit(c as int % 16)]
    } else {
        seq![c]
    }
}

/// A JSON string literal for `s` (`serde_json::to_string` of a string).
#[verifier::external_body]
pub(crate) fn json_string_literal(s: &str) -> (r: String)
    ensures
        r@ == json_quoted(s@),
{
    match serde_json::to_string(s) {
        Ok(t) => t,
        Err(_) => String::new(),
    }
}

/// Appends `s` to `out`.
fn push_str(out: &mut String, s: &str)
    ensures
        final(out)@ == old(out)@ + s@,
{
    out.append(s);
}

/// `{"correlate":<id>`, the opening of correlation metadata.
pub open spec fn correlate_head(id: int) -> Seq<char> {
    "{\"correlate\":"@ + int_decimal(id)
}

fn push_correlate_head(out: &mut String, id: i64)
    ensures
        final(out)@ == old(out)@ + correlate_head(id as int),
{
    push_str(out, "{\"correlate\":");
    let t = crate::text::i128_to_string(id as i128);
    push_str(out, t.as_str());
}

/// The effective metadata of a new transaction from the user's metadata and
/// a correlated transaction id.
pub open spec fn effective_metadata(user: Option<Seq<char>>, correlate: Option<i64>) -> Option<Seq<char>> {
    match (user, correlate) {
        (None, None) => None,
        (Some(m), None) => Some(m),
        (None, Some(c)) => Some(correlate_head(c as int) + "}"@),
        (Some(m), Some(c)) => Some(correlate_head(c as int) + ",\"ref\":"@ + json_quoted(m) + "}"@),
    }
}

/// Builds the effective metadata JSON from optional user metadata and a
/// correlated transaction id.
pub fn build_metadata(user_metadata: Option<&str>, correlate: Option<i64>) -> (r: Option<String>)
    ensures
        match r {
            Some(s) => effective_metadata(
                match user_metadata {
                    Some(u) => Some(u@),
                    None => None,
                },
                correlate,
            ) == Some(s@),
            None => effective_metadata(
                match user_metadata {
                    Some(u) => Some(u@),
                    None => None,
                },
                correlate,
            ) is None,
        },
{
    match (user_metadata, correlate) {
        (None, None) => None,
        (Some(m), None) => Some(m.to_owned()),
        (None, Some(cid)) => {
            let mut s = String::new();
            push_correlate_head(&mut s, cid);
            push_str(&mut s, "}");
            Some(s)
        },
        (Some(m), Some(cid)) => {
            let mut s = String::new();
            push_correlate_head(&mut s, cid);
            push_str(&mut s, ",\"ref\":");
            let q = json_string_literal(m);
            push_str(&mut s, q.as_str());
            push_str(&mut s, "}");
            Some(s)
        },
    }
}

/// The metadata of a partner transaction once correlated with transaction
/// `id`: a `correlate` key added at the front of a JSON object, or the old
/// plain text kept under `ref`.
pub open spec fn merged_metadata(existing: Option<Seq<char>>, id: int) -> Seq<char> {
    match existing {
        None => correlate_head(id) + "}"@,
        Some(s) => if s.len() > 0 && s[0] == '{' {
            let rest = s.drop_first();
            if trim_front(rest).len() > 0 && trim_front(rest)[0] == '}' {
                correlate_head(id) + "}"@
            } else {
                correlate_head(id) + ","@ + rest
            }
        } else {
            correlate_head(id) + ",\"ref\":"@ + json_quoted(s) + "}"@
        },
    }
}

/// Merges a `correlate` key into existing metadata: `{"correlate":id}`
/// without metadata, the key inserted first into a JSON object, or the
/// plain string kept under `ref`.
pub fn merge_correlate_into_metadata(existing: Option<&str>, correlate_id: i64) -> (s: String)
    ensures
        s@ == merged_metadata(
            match existing {
                Some(e) => Some(e@),
                None => None,
            },
            correlate_id as int,
        ),
{
    let mut s = String::new();
    push_correlate_head(&mut s, correlate_id);
    match existing {
        None => {
            push_str(&mut s, "}");
        },
        Some(e) => {
            let n = e.unicode_len();
            if n > 0 && e.get_char(0) == '{' {
                let rest = e.substring_char(1, n);
                assert(rest@ =~= e@.drop_first());
                let t = crate::text::trim_start(rest);
                let k = t.unicode_len();
                if k > 0 && t.get_char(0) == '}' {
                    push_str(&mut s, "}");
                } else {
                    push_str(&mut s, ",");
                    push_str(&mut s, rest);
                }
            } else {
                push_str(&mut s, ",\"ref\":");
                let q = json_string_literal(e);
                push_str(&mut s, q.as_str());
                push_str(&mut s, "}");
            }
        },
    }
    s
}

/// Parameters for listing and searching transactions.
pub struct ListTransactionParams<'a> {
    /// The company whose transactions are listed.
    pub company_slug: &'a str,
    /// Only transactions with an entry for this account code.
    pub account_filter: Option<&'a str>,
    /// Only transactions on or after this date.
    pub from_date: Option<&'a str>,
    /// Only transactions on or before this date.
    pub to_date: Option<&'a str>,
    /// The maximum number of rows.
    pub limit: i64,
    /// The number of rows to skip.
    pub offset: i64,
    /// Substring of the description (case-insensitive).
    pub description_like: Option<&'a str>,
    /// Entry amount strictly above, in minor units.
    pub amount_gt: Option<i64>,
    /// Entry amount strictly below, in minor units.
    pub amount_lt: Option<i64>,
    /// Exact entry amount, in minor units.
    pub amount_eq: Option<i64>,
    /// Exact transaction currency code.
    pub currency_filter: Option<&'a str>,
    /// Exact transaction reference.
    pub reference_filter: Option<&'a str>,
    /// Substring of the metadata (case-insensitive).
    pub metadata_like: Option<&'a str>,
    /// Exact entry tax category.
    pub tax_category_filter: Option<&'a str>,
    /// Entry direction (`debit` or `credit`).
    pub direction_filter: Option<&'a str>,
}

impl<'a> ListTransactionParams<'a> {
    /// Parameters with only the company set: no filters, at most 50 rows
    /// from the first.
    pub fn for_company(company_slug: &'a str) -> (p: ListTransactionParams<'a>)
        ensures
            p.company_slug == company_slug,
            p.account_filter is None,
            p.from_date is None,
            p.to_date is None,
            p.limit == 50,
            p.offset == 0,
            p.description_like is None,
            p.amount_gt is None,
            p.amount_lt is None,
            p.amount_eq is None,
            p.currency_filter is None,
            p.reference_filter is None,
            p.metadata_like is None,
            p.tax_category_filter is None,
            p.direction_filter is None,
    {
        ListTransactionParams {
            company_slug,
            account_filter: None,
            from_date: None,
            to_date: None,
            limit: 50,
            offset: 0,
            description_like: None,
            amount_gt: None,
            amount_lt: None,
            amount_eq: None,
            currency_filter: None,
            reference_filter: None,
            metadata_like: None,
            tax_category_filter: None,
            direction_filter: None,
        }
    }

    /// Returns `true` if any filter needs the entries table joined.
    pub fn needs_entries_join(&self) -> (b: bool)
        ensures
            b == needs_join(*self),
    {
        self.account_filter.is_some() || self.amount_gt.is_some() || self.amount_lt.is_some()
            || self.amount_eq.is_some() || self.tax_category_filter.is_some()
            || self.direction_filter.is_some()
    }
}

/// Whether some filter is on entries rather than on transactions.
pub open spec fn needs_join(p: ListTransactionParams) -> bool {
    p.account_filter is Some || p.amount_gt is Some || p.amount_lt is Some || p.amount_eq is Some
        || p.tax_category_filter is Some || p.direction_filter is Some
}

/// A value bound to a query placeholder.
#[derive(Debug, Clone, PartialEq, Eq)]
pub enum SqlParam {
    /// A text value.
    Text(String),
    /// An integer value.
    Integer(i64),
}

/// The mathematical content of a bound value.
pub enum SqlParamView {
    /// A text value.
    Text(Seq<char>),
    /// An integer value.
    Integer(int),
}

impl View for SqlParam {
    type V = SqlParamView;

    open spec fn view(&self) -> SqlParamView {
        match self {
            SqlParam::Text(s) => SqlParamView::Text(s@),
            SqlParam::Integer(v) => SqlParamView::Integer(*v as int),
        }
    }
}

/// One filter condition: the SQL before and after its placeholder number,
/// and the value bound to it.
pub struct SqlFilter {
    /// The SQL before the placeholder number, e.g. ` AND t.date >= ?`.
    pub before: Seq<char>,
    /// The SQL after the placeholder number.
    pub after: Seq<char>,
    /// The value bound to the placeholder.
    pub value: SqlParamView,
}

/// The filter for an optional text value.
pub open spec fn text_filter(v: Option<&str>, before: Seq<char>, after: Seq<char>) -> Option<SqlFilter> {
    match v {
        Some(t) => Some(SqlFilter { before, after, value: SqlParamView::Text(t@) }),
        None => None,
    }
}

/// The filter for an optional integer value.
pub open spec fn int_filter(v: Option<i64>, before: Seq<char>) -> Option<SqlFilter> {
    match v {
        Some(t) => Some(SqlFilter { before, after: Seq::empty(), value: SqlParamView::Integer(t as int) }),
        None => None,
    }
}

/// A list of filters with one more, when present.
pub open spec fn and_filter(fs: Seq<SqlFilter>, f: Option<SqlFilter>) -> Seq<SqlFilter> {
    match f {
        Some(x) => fs.push(x),
        None => fs,
    }
}

/// A comparison operator of SQL.
pub enum SqlComparison {
    /// `<`
    Lt,
    /// `<=`
    Le,
    /// `>`
    Gt,
    /// `>=`
    Ge,
}

/// How an operator is written in SQL.
pub open spec fn comparison_text(op: SqlComparison) -> Seq<char> {
    match op {
        SqlComparison::Lt => "<"@,
        SqlComparison::Le => "<="@,
        SqlComparison::Gt => ">"@,
        SqlComparison::Ge => ">="@,
    }
}

/// Whether `op` holds between two texts as SQLite compares them.
pub open spec fn comparison_holds(op: SqlComparison, a: Seq<char>, b: Seq<char>) -> bool {
    match op {
        SqlComparison::Lt => text_lt(a, b),
        SqlComparison::Le => text_le(a, b),
        SqlComparison::Gt => text_lt(b, a),
        SqlComparison::Ge => text_le(b, a),
    }
}

/// Whether a filter compares the transaction date with its value by `op`:
/// written ` AND t.date <op> ?n`, or ` AND (t.date IS NULL OR t.date <op>
/// ?n)`, which also keeps undated rows.
pub open spec fn compares_date(f: SqlFilter, op: SqlComparison) -> bool {
    ||| f.before == " AND t.date "@ + comparison_text(op) + " ?"@ && f.after == ""@
    ||| f.before == " AND (t.date IS NULL OR t.date "@ + comparison_text(op) + " ?"@ && f.after == ")"@
}

/// Whether a filter keeps a row whose transaction is dated `d`: a date
/// comparison keeps it when the comparison with its value holds; any other
/// filter does not look at the date.
pub open spec fn keeps_date(f: SqlFilter, d: Seq<char>) -> bool {
    forall|op: SqlComparison|
        #[trigger] compares_date(f, op) ==> (f.value matches SqlParamView::Text(b) && comparison_holds(
            op,
            d,
            b,
        ))
}

/// Whether every filter of a query keeps a row dated `d`.
pub open spec fn filters_keep_date(fs: Seq<SqlFilter>, d: Seq<char>) -> bool {
    forall|i: int| 0 <= i < fs.len() ==> #[trigger] keeps_date(fs[i], d)
}

/// One more filter keeps a row exactly when it and the others do.
pub proof fn lemma_keep_and_filter(fs: Seq<SqlFilter>, f: Option<SqlFilter>, d: Seq<char>)
    ensures
        filters_keep_date(and_filter(fs, f), d) == (filters_keep_date(fs, d) && (f matches Some(x)
            ==> keeps_date(x, d))),
{
    if let Some(x) = f {
        let g = fs.push(x);
        if filters_keep_date(fs, d) && keeps_date(x, d) {
            assert forall|i: int| 0 <= i < g.len() implies #[trigger] keeps_date(g[i], d) by {
                if i < fs.len() {
                    assert(g[i] == fs[i]);
                }
            }
        }
        if filters_keep_date(g, d) {
            assert(keeps_date(g[fs.len() as int], d));
            assert forall|i: int| 0 <= i < fs.len() implies #[trigger] keeps_date(fs[i], d) by {
                assert(g[i] == fs[i]);
                assert(keeps_date(g[i], d));
            }
        }
    }
}

/// The written forms of date comparisons, spelled out.
proof fn lemma_date_forms(op: SqlComparison)
    ensures
        (" AND t.date "@ + comparison_text(op) + " ?"@).len() > 8,
        (" AND t.date "@ + comparison_text(op) + " ?"@)[5] == 't',
        (" AND t.date "@ + comparison_text(op) + " ?"@)[7] == 'd',
        (" AND t.date "@ + comparison_text(op) + " ?"@)[8] == 'a',
        (" AND (t.date IS NULL OR t.date "@ + comparison_text(op) + " ?"@).len() > 5,
        (" AND (t.date IS NULL OR t.date "@ + comparison_text(op) + " ?"@)[5] == '(',
{
    reveal_strlit(" AND t.date ");
    reveal_strlit(" AND (t.date IS NULL OR t.date ");
    reveal_strlit(" ?");
    reveal_strlit("<");
    reveal_strlit("<=");
    reveal_strlit(">");
    reveal_strlit(">=");
}

/// A filter that is not written as a date comparison keeps every row.
pub proof fn lemma_keeps_other(f: SqlFilter, d: Seq<char>)
    requires
        !(f.before.len() > 8 && f.before[5] == 't' && f.before[7] == 'd' && f.before[8] == 'a'),
        !(f.before.len() > 5 && f.before[5] == '('),
    ensures
        keeps_date(f, d),
{
    assert forall|op: SqlComparison| !#[trigger] compares_date(f, op) by {
        lemma_date_forms(op);
    }
}

/// Whether a filter's text is plainly not a date comparison: it does not
/// start ` AND t.da` or ` AND (`.
pub open spec fn not_date_text(b: Seq<char>) -> bool {
    &&& !(b.len() > 8 && b[5] == 't' && b[7] == 'd' && b[8] == 'a')
    &&& !(b.len() > 5 && b[5] == '(')
}

/// Adding a filter that is not a date comparison keeps the same dates.
pub proof fn lemma_step_other(fs: Seq<SqlFilter>, f: Option<SqlFilter>, d: Seq<char>)
    requires
        f matches Some(x) ==> not_date_text(x.before),
    ensures
        filters_keep_date(and_filter(fs, f), d) == filters_keep_date(fs, d),
{
    if let Some(x) = f {
        lemma_keeps_other(x, d);
    }
    lemma_keep_and_filter(fs, f, d);
}

/// Adding the date comparison `before`/`after` by `op` on an optional
/// value keeps the dates the others keep that also satisfy it.
pub proof fn lemma_step_date(
    fs: Seq<SqlFilter>,
    v: Option<&str>,
    before: Seq<char>,
    after: Seq<char>,
    op: SqlComparison,
    d: Seq<char>,
)
    requires
        compares_date(SqlFilter { before, after, value: SqlParamView::Integer(0) }, op),
    ensures
        filters_keep_date(and_filter(fs, text_filter(v, before, after)), d) == (filters_keep_date(fs, d)
            && (v matches Some(b) ==> comparison_holds(op, d, b@))),
{
    if let Some(b) = v {
        let x = SqlFilter { before, after, value: SqlParamView::Text(b@) };
        assert(compares_date(x, op));
        lemma_keeps_by(x, op, b@, d);
    }
    lemma_keep_and_filter(fs, text_filter(v, before, after), d);
}

/// The text of a date comparison by `op0` is that of no other operator.
proof fn lemma_comparison_texts_differ(op0: SqlComparison, op: SqlComparison, p: Seq<char>)
    requires
        p + comparison_text(op) + " ?"@ == p + comparison_text(op0) + " ?"@,
    ensures
        op == op0,
{
    reveal_strlit(" ?");
    reveal_strlit("<");
    reveal_strlit("<=");
    reveal_strlit(">");
    reveal_strlit(">=");
    let a = p + comparison_text(op) + " ?"@;
    let b = p + comparison_text(op0) + " ?"@;
    assert(a.len() == b.len());
    assert(a[p.len() as int] == comparison_text(op)[0]);
    assert(b[p.len() as int] == comparison_text(op0)[0]);
    if comparison_text(op).len() == 2 && comparison_text(op0).len() == 2 {
        assert(a[p.len() as int + 1] == b[p.len() as int + 1]);
    }
}

/// A filter ` AND t.date <op0> ?n` (or the form that keeps undated rows)
/// with value `b` keeps a row dated `d` exactly when `d <op0> b` holds.
pub proof fn lemma_keeps_by(f: SqlFilter, op0: SqlComparison, b: Seq<char>, d: Seq<char>)
    requires
        compares_date(f, op0),
        f.value == SqlParamView::Text(b),
    ensures
        keeps_date(f, d) == comparison_holds(op0, d, b),
{
    reveal_strlit("");
    reveal_strlit(")");
    assert(""@.len() == 0);
    assert(")"@.len() == 1);
    assert(""@ != ")"@);
    assert forall|op: SqlComparison| #[trigger] compares_date(f, op) implies op == op0 by {
        if f.after == ""@ {
            assert(f.before == " AND t.date "@ + comparison_text(op) + " ?"@);
            assert(f.before == " AND t.date "@ + comparison_text(op0) + " ?"@);
            lemma_comparison_texts_differ(op0, op, " AND t.date "@);
        } else {
            assert(f.before == " AND (t.date IS NULL OR t.date "@ + comparison_text(op) + " ?"@);
            assert(f.before == " AND (t.date IS NULL OR t.date "@ + comparison_text(op0) + " ?"@);
            lemma_comparison_texts_differ(op0, op, " AND (t.date IS NULL OR t.date "@);
        }
    }
}

/// ` AND t.date >= ?`, ` AND t.date <= ?` and ` AND (t.date IS NULL OR
/// t.date <= ?` are the date comparisons they look like.
pub proof fn lemma_date_filter_texts()
    ensures
        " AND t.date >= ?"@ == " AND t.date "@ + comparison_text(SqlComparison::Ge) + " ?"@,
        " AND t.date <= ?"@ == " AND t.date "@ + comparison_text(SqlComparison::Le) + " ?"@,
        " AND (t.date IS NULL OR t.date <= ?"@ == " AND (t.date IS NULL OR t.date "@ + comparison_text(
            SqlComparison::Le,
        ) + " ?"@,
{
    reveal_strlit(" AND t.date >= ?");
    reveal_strlit(" AND t.date <= ?");
    reveal_strlit(" AND (t.date IS NULL OR t.date <= ?");
    reveal_strlit(" AND t.date ");
    reveal_strlit(" AND (t.date IS NULL OR t.date ");
    reveal_strlit(" ?");
    reveal_strlit("<=");
    reveal_strlit(">=");
    assert(" AND t.date >= ?"@ =~= " AND t.date "@ + comparison_text(SqlComparison::Ge) + " ?"@);
    assert(" AND t.date <= ?"@ =~= " AND t.date "@ + comparison_text(SqlComparison::Le) + " ?"@);
    assert(" AND (t.date IS NULL OR t.date <= ?"@ =~= " AND (t.date IS NULL OR t.date "@
        + comparison_text(SqlComparison::Le) + " ?"@);
}

/// The filters of a listing, in the order they are written: the entry
/// filters (account, amount above, below, equal, tax category, direction),
/// then the transaction filters (from, to, description, currency,
/// reference, metadata).
pub open spec fn list_filters(p: ListTransactionParams) -> Seq<SqlFilter> {
    let f0 = Seq::<SqlFilter>::empty();
    let f1 = and_filter(f0, text_filter(p.account_filter, " AND e.account_code = ?"@, ""@));
    let f2 = and_filter(f1, int_filter(p.amount_gt, " AND e.amount > ?"@));
    let f3 = and_filter(f2, int_filter(p.amount_lt, " AND e.amount < ?"@));
    let f4 = and_filter(f3, int_filter(p.amount_eq, " AND e.amount = ?"@));
    let f5 = and_filter(f4, text_filter(p.tax_category_filter, " AND e.tax_category = ?"@, ""@));
    let f6 = and_filter(f5, text_filter(p.direction_filter, " AND e.direction = ?"@, ""@));
    let f7 = and_filter(f6, text_filter(p.from_date, " AND t.date >= ?"@, ""@));
    let f8 = and_filter(f7, text_filter(p.to_date, " AND t.date <= ?"@, ""@));
    let f9 = and_filter(
        f8,
        text_filter(p.description_like, " AND t.description LIKE '%' || ?"@, " || '%'"@),
    );
    let f10 = and_filter(f9, text_filter(p.currency_filter, " AND t.currency = ?"@, ""@));
    let f11 = and_filter(f10, text_filter(p.reference_filter, " AND t.reference = ?"@, ""@));
    and_filter(f11, text_filter(p.metadata_like, " AND t.metadata LIKE '%' || ?"@, " || '%'"@))
}

/// Whether a date lies in an optional range: on or after `from` and on or
/// before `to`, as SQLite compares text (for `YYYY-MM-DD` dates, calendar
/// order: `lemma_ymd_text_order`).
pub open spec fn date_in_range(d: Seq<char>, from: Option<&str>, to: Option<&str>) -> bool {
    &&& from matches Some(f) ==> text_le(f@, d)
    &&& to matches Some(t) ==> text_le(d, t@)
}

/// A transaction listing keeps exactly the transactions dated within its
/// range, both bounds included: `--from F` keeps a date `d` when `F <= d`,
/// `--to T` when `d <= T`; no other filter looks at the date.
pub proof fn lemma_listing_date_range(p: ListTransactionParams, d: Seq<char>)
    ensures
        filters_keep_date(list_filters(p), d) == date_in_range(d, p.from_date, p.to_date),
{
    reveal_strlit(" AND e.account_code = ?");
    reveal_strlit(" AND e.amount > ?");
    reveal_strlit(" AND e.amount < ?");
    reveal_strlit(" AND e.amount = ?");
    reveal_strlit(" AND e.tax_category = ?");
    reveal_strlit(" AND e.direction = ?");
    reveal_strlit(" AND t.description LIKE '%' || ?");
    reveal_strlit(" AND t.currency = ?");
    reveal_strlit(" AND t.reference = ?");
    reveal_strlit(" AND t.metadata LIKE '%' || ?");
    lemma_date_filter_texts();
    let f0 = Seq::<SqlFilter>::empty();
    assert(filters_keep_date(f0, d));
    let f1 = and_filter(f0, text_filter(p.account_filter, " AND e.account_code = ?"@, ""@));
    lemma_step_other(f0, text_filter(p.account_filter, " AND e.account_code = ?"@, ""@), d);
    let f2 = and_filter(f1, int_filter(p.amount_gt, " AND e.amount > ?"@));
    lemma_step_other(f1, int_filter(p.amount_gt, " AND e.amount > ?"@), d);
    let f3 = and_filter(f2, int_filter(p.amount_lt, " AND e.amount < ?"@));
    lemma_step_other(f2, int_filter(p.amount_lt, " AND e.amount < ?"@), d);
    let f4 = and_filter(f3, int_filter(p.amount_eq, " AND e.amount = ?"@));
    lemma_step_other(f3, int_filter(p.amount_eq, " AND e.amount = ?"@), d);
    let f5 = and_filter(f4, text_filter(p.tax_category_filter, " AND e.tax_category = ?"@, ""@));
    lemma_step_other(f4, text_filter(p.tax_category_filter, " AND e.tax_category = ?"@, ""@), d);
    let f6 = and_filter(f5, text_filter(p.direction_filter, " AND e.direction = ?"@, ""@));
    lemma_step_other(f5, text_filter(p.direction_filter, " AND e.direction = ?"@, ""@), d);
    let f7 = and_filter(f6, text_filter(p.from_date, " AND t.date >= ?"@, ""@));
    lemma_step_date(f6, p.from_date, " AND t.date >= ?"@, ""@, SqlComparison::Ge, d);
    let f8 = and_filter(f7, text_filter(p.to_date, " AND t.date <= ?"@, ""@));
    lemma_step_date(f7, p.to_date, " AND t.date <= ?"@, ""@, SqlComparison::Le, d);
    let g9 = text_filter(p.description_like, " AND t.description LIKE '%' || ?"@, " || '%'"@);
    let f9 = and_filter(f8, g9);
    lemma_step_other(f8, g9, d);
    let f10 = and_filter(f9, text_filter(p.currency_filter, " AND t.currency = ?"@, ""@));
    lemma_step_other(f9, text_filter(p.currency_filter, " AND t.currency = ?"@, ""@), d);
    let f11 = and_filter(f10, text_filter(p.reference_filter, " AND t.reference = ?"@, ""@));
    lemma_step_other(f10, text_filter(p.reference_filter, " AND t.reference = ?"@, ""@), d);
    let g12 = text_filter(p.metadata_like, " AND t.metadata LIKE '%' || ?"@, " || '%'"@);
    lemma_step_other(f11, g12, d);
    assert(list_filters(p) == and_filter(f11, g12));
}

/// The SQL of a list of filters whose placeholders are numbered from
/// `start`.
pub open spec fn filters_sql(fs: Seq<SqlFilter>, start: int) -> Seq<char>
    decreases fs.len(),
{
    if fs.len() == 0 {
        Seq::empty()
    } else {
        filters_sql(fs.drop_last(), start) + fs.last().before + int_decimal(start + fs.len() - 1)
            + fs.last().after
    }
}

/// The shared `FROM`/`JOIN`/`WHERE` clause of transaction listings, with
/// the company as placeholder 1 and the filters numbered from 2.
pub open spec fn list_query_sql(p: ListTransactionParams) -> Seq<char> {
    "FROM transactions t"@ + (if needs_join(p) {
        " JOIN entries e ON e.transaction_id = t.id"@
    } else {
        Seq::empty()
    }) + " WHERE t.company_slug = ?1"@ + filters_sql(list_filters(p), 2)
}

/// The values bound to a listing's placeholders: the company, then one per
/// filter.
pub open spec fn list_query_values(p: ListTransactionParams) -> Seq<SqlParamView> {
    seq![SqlParamView::Text(p.company_slug@)] + list_filters(p).map_values(|f: SqlFilter| f.value)
}

/// The views of a list of bound values.
pub open spec fn param_views(ps: Seq<SqlParam>) -> Seq<SqlParamView> {
    ps.map_values(|p: SqlParam| p@)
}

/// What a listing's SQL and values hold after the filters `fs`: the head
/// clause, then each filter numbered from 2; the company, then each
/// filter's value; and the next free placeholder number.
pub open spec fn built_so_far(
    sql: Seq<char>,
    values: Seq<SqlParam>,
    idx: u32,
    head: Seq<char>,
    company: Seq<char>,
    fs: Seq<SqlFilter>,
) -> bool {
    &&& sql == head + filters_sql(fs, 2)
    &&& param_views(values) == seq![SqlParamView::Text(company)] + fs.map_values(
        |f: SqlFilter| f.value,
    )
    &&& idx == 2 + fs.len()
}

/// Appends the filter for an optional text value, when present.
pub(crate) fn add_text_filter(
    sql: &mut String,
    values: &mut Vec<SqlParam>,
    idx: &mut u32,
    v: Option<&str>,
    before: &str,
    after: &str,
    Ghost(head): Ghost<Seq<char>>,
    Ghost(company): Ghost<Seq<char>>,
    Ghost(fs): Ghost<Seq<SqlFilter>>,
) -> (next: Ghost<Seq<SqlFilter>>)
    requires
        built_so_far(old(sql)@, old(values)@, *old(idx), head, company, fs),
        fs.len() < 12,
    ensures
        next@ == and_filter(fs, text_filter(v, before@, after@)),
        next@.len() <= fs.len() + 1,
        built_so_far(final(sql)@, final(values)@, *final(idx), head, company, next@),
{
    match v {
        Some(t) => {
            let ghost f = SqlFilter { before: before@, after: after@, value: SqlParamView::Text(t@) };
            push_str(sql, before);
            push_u128_digits(sql, *idx as u128);
            push_str(sql, after);
            values.push(SqlParam::Text(t.to_owned()));
            *idx = *idx + 1;
            proof {
                lemma_filter_step(fs, f, 2);
                assert(sql@ =~= head + filters_sql(fs.push(f), 2));
                assert(param_views(values@) =~= param_views(old(values)@).push(f.value));
            }
            Ghost(fs.push(f))
        },
        None => Ghost(fs),
    }
}

/// Appends the filter for an optional integer value, when present.
fn add_int_filter(
    sql: &mut String,
    values: &mut Vec<SqlParam>,
    idx: &mut u32,
    v: Option<i64>,
    before: &str,
    Ghost(head): Ghost<Seq<char>>,
    Ghost(company): Ghost<Seq<char>>,
    Ghost(fs): Ghost<Seq<SqlFilter>>,
) -> (next: Ghost<Seq<SqlFilter>>)
    requires
        built_so_far(old(sql)@, old(values)@, *old(idx), head, company, fs),
        fs.len() < 12,
    ensures
        next@ == and_filter(fs, int_filter(v, before@)),
        next@.len() <= fs.len() + 1,
        built_so_far(final(sql)@, final(values)@, *final(idx), head, company, next@),
{
    match v {
        Some(t) => {
            let ghost f = SqlFilter {
                before: before@,
                after: Seq::empty(),
                value: SqlParamView::Integer(t as int),
            };
            push_str(sql, before);
            push_u128_digits(sql, *idx as u128);
            values.push(SqlParam::Integer(t));
            *idx = *idx + 1;
            proof {
                lemma_filter_step(fs, f, 2);
                assert(sql@ =~= head + filters_sql(fs.push(f), 2));
                assert(param_views(values@) =~= param_views(old(values)@).push(f.value));
            }
            Ghost(fs.push(f))
        },
        None => Ghost(fs),
    }
}

/// Builds the shared `FROM`/`JOIN`/`WHERE` clause for transaction queries:
/// the SQL, the values of its placeholders in order, and the next free
/// placeholder number. `ORDER BY`, `LIMIT` and `OFFSET` are left to the
/// caller.
pub fn build_list_query(params: &ListTransactionParams) -> (r: (String, Vec<SqlParam>, u32))
    ensures
        r.0@ == list_query_sql(*params),
        param_views(r.1@) == list_query_values(*params),
        r.2 == 2 + list_filters(*params).len(),
{
    let mut sql = "FROM transactions t".to_string();
    if params.needs_entries_join() {
        push_str(&mut sql, " JOIN entries e ON e.transaction_id = t.id");
    }
    push_str(&mut sql, " WHERE t.company_slug = ?1");
    let ghost head = sql@;
    let ghost company = params.company_slug@;
    let mut values: Vec<SqlParam> = Vec::new();
    values.push(SqlParam::Text(params.company_slug.to_owned()));
    let mut idx: u32 = 2;
    let ghost f0 = Seq::<SqlFilter>::empty();
    assert(sql@ =~= head + filters_sql(f0, 2));
    assert(param_views(values@) =~= seq![SqlParamView::Text(company)] + f0.map_values(
        |f: SqlFilter| f.value,
    ));
    let g = Ghost(head);
    let c = Ghost(company);
    let Ghost(f1) = add_text_filter(&mut sql, &mut values, &mut idx, params.account_filter,
        " AND e.account_code = ?", "", g, c, Ghost(f0));
    let Ghost(f2) = add_int_filter(&mut sql, &mut values, &mut idx, params.amount_gt,
        " AND e.amount > ?", g, c, Ghost(f1));
    let Ghost(f3) = add_int_filter(&mut sql, &mut values, &mut idx, params.amount_lt,
        " AND e.amount < ?", g, c, Ghost(f2));
    let Ghost(f4) = add_int_filter(&mut sql, &mut values, &mut idx, params.amount_eq,
        " AND e.amount = ?", g, c, Ghost(f3));
    let Ghost(f5) = add_text_filter(&mut sql, &mut values, &mut idx, params.tax_category_filter,
        " AND e.tax_category = ?", "", g, c, Ghost(f4));
    let Ghost(f6) = add_text_filter(&mut sql, &mut values, &mut idx, params.direction_filter,
        " AND e.direction = ?", "", g, c, Ghost(f5));
    let Ghost(f7) = add_text_filter(&mut sql, &mut values, &mut idx, params.from_date,
        " AND t.date >= ?", "", g, c, Ghost(f6));
    let Ghost(f8) = add_text_filter(&mut sql, &mut values, &mut idx, params.to_date,
        " AND t.date <= ?", "", g, c, Ghost(f7));
    let Ghost(f9) = add_text_filter(&mut sql, &mut values, &mut idx, params.description_like,
        " AND t.description LIKE '%' || ?", " || '%'", g, c, Ghost(f8));
    let Ghost(f10) = add_text_filter(&mut sql, &mut values, &mut idx, params.currency_filter,
        " AND t.currency = ?", "", g, c, Ghost(f9));
    let Ghost(f11) = add_text_filter(&mut sql, &mut values, &mut idx, params.reference_filter,
        " AND t.reference = ?", "", g, c, Ghost(f10));
    let Ghost(f12) = add_text_filter(&mut sql, &mut values, &mut idx, params.metadata_like,
        " AND t.metadata LIKE '%' || ?", " || '%'", g, c, Ghost(f11));
    assert(f12 == list_filters(*params));
    (sql, values, idx)
}

/// One more filter extends the SQL by its clause, numbered after the
/// others.
proof fn lemma_filter_step(fs: Seq<SqlFilter>, f: SqlFilter, start: int)
    ensures
        filters_sql(fs.push(f), start) == filters_sql(fs, start) + f.before + int_decimal(start + fs.len())
            + f.after,
        fs.push(f).map_values(|x: SqlFilter| x.value) == fs.map_values(|x: SqlFilter| x.value).push(f.value),
{
    assert(fs.push(f).drop_last() =~= fs);
    assert(fs.push(f).map_values(|x: SqlFilter| x.value) =~= fs.map_values(|x: SqlFilter| x.value).push(f.value));
}

/// Whether `r` is what a post does under `strategy` when the transaction
/// `existing_id` already has its reference: an error naming the reference
/// and the existing id, a skip reporting that id, or the not-yet-supported
/// upsert.
pub open spec fn is_conflict_outcome(
    r: Result<PostResult, CliError>,
    strategy: ConflictStrategy,
    reference: Seq<char>,
    existing_id: i64,
) -> bool {
    match strategy {
        ConflictStrategy::Error => r matches Err(CliError::Validation(m)) && m@
            == "transaction with reference '"@ + reference + "' already exists (id: "@
            + int_decimal(existing_id as int) + ")"@,
        ConflictStrategy::Skip => r == Ok::<PostResult, CliError>(PostResult::Skipped(existing_id)),
        ConflictStrategy::Upsert => r matches Err(CliError::General(m)) && m@
            == "on-conflict=upsert not yet implemented"@,
    }
}

/// What a post does when a transaction with the same reference exists:
/// an error naming the reference and the existing id, a skip reporting
/// that id, or the not-yet-supported upsert.
pub fn conflict_outcome(strategy: ConflictStrategy, reference: &str, existing_id: i64) -> (r: Result<PostResult, CliError>)
    ensures
        is_conflict_outcome(r, strategy, reference@, existing_id),
{
    match strategy {
        ConflictStrategy::Error => {
            let mut m = "transaction with reference '".to_string();
            push_str(&mut m, reference);
            push_str(&mut m, "' already exists (id: ");
            push_str(&mut m, i128_to_string(existing_id as i128).as_str());
            push_str(&mut m, ")");
            Err(CliError::Validation(m))
        },
        ConflictStrategy::Skip => Ok(PostResult::Skipped(existing_id)),
        ConflictStrategy::Upsert => Err(
            CliError::General("on-conflict=upsert not yet implemented".to_string()),
        ),
    }
}

/// What a post with a reference does once the reference has been looked
/// up: `None`, go on and insert, when no transaction has it; else the
/// conflict outcome for the one that does.
pub fn reference_conflict(strategy: ConflictStrategy, reference: &str, existing: Option<i64>) -> (r: Option<
    Result<PostResult, CliError>,
>)
    ensures
        match existing {
            None => r is None,
            Some(id) => r matches Some(o) && is_conflict_outcome(o, strategy, reference@, id),
        },
{
    match existing {
        None => None,
        Some(id) => Some(conflict_outcome(strategy, reference, id)),
    }
}

/// The direction an entry is stored with: `debit` or `credit`, whatever
/// the letter case it was given in.
pub open spec fn direction_named(direction: Seq<char>) -> Option<Seq<char>> {
    if ascii_lower_seq(direction) == "debit"@ {
        Some("debit"@)
    } else if ascii_lower_seq(direction) == "credit"@ {
        Some("credit"@)
    } else {
        None
    }
}

/// Lowercases and checks an entry direction. Only ASCII letters lowercase
/// to the letters of `debit` and `credit`, so ignoring ASCII case is the
/// same test as comparing the full lowercase form.
pub fn normalize_direction(direction: &str) -> (r: Result<String, CliError>)
    ensures
        match direction_named(direction@) {
            Some(d) => r matches Ok(s) && s@ == d,
            None => r matches Err(CliError::Validation(m)) && m@ == "invalid direction '"@
                + direction@ + "'; expected 'debit' or 'credit'"@,
        },
{
    proof {
        reveal_strlit("debit");
        reveal_strlit("credit");
    }
    if eq_ignore_ascii_case(direction, "debit") {
        assert(ascii_lower_seq("debit"@) =~= "debit"@);
        Ok("debit".to_string())
    } else if eq_ignore_ascii_case(direction, "credit") {
        assert(ascii_lower_seq("credit"@) =~= "credit"@);
        assert(ascii_lower_seq("debit"@) =~= "debit"@);
        Ok("credit".to_string())
    } else {
        assert(ascii_lower_seq("debit"@) =~= "debit"@);
        assert(ascii_lower_seq("credit"@) =~= "credit"@);
        let mut m = "invalid direction '".to_string();
        push_str(&mut m, direction);
        push_str(&mut m, "'; expected 'debit' or 'credit'");
        Err(CliError::Validation(m))
    }
}

/// The checks before a post: at least one entry, and every direction
/// `debit` or `credit` (the first bad one is reported). On success, the
/// stored form of each direction.
pub fn validate_entries(entries: &[PostEntryParams]) -> (r: Result<Vec<String>, CliError>)
    ensures
        entries@.len() == 0 ==> (r matches Err(CliError::Validation(m)) && m@
            == "transaction must have at least one entry"@),
        r matches Ok(ds) ==> ds@.len() == entries@.len() && forall|i: int|
            0 <= i < ds@.len() ==> direction_named(entries@[i].direction@) == Some(
                (#[trigger] ds@[i])@,
            ),
        (entries@.len() > 0 && forall|i: int|
            0 <= i < entries@.len() ==> (#[trigger] direction_named(entries@[i].direction@)) is Some)
            ==> r is Ok,
        r matches Err(CliError::Validation(m)) ==> (entries@.len() == 0 || exists|i: int|
            0 <= i < entries@.len() && (#[trigger] direction_named(entries@[i].direction@)) is None
                && (forall|k: int| 0 <= k < i ==> direction_named(entries@[k].direction@) is Some)
                && m@ == "invalid direction '"@ + entries@[i].direction@
                + "'; expected 'debit' or 'credit'"@),
{
    if entries.len() == 0 {
        return Err(CliError::Validation("transaction must have at least one entry".to_string()));
    }
    let mut out: Vec<String> = Vec::new();
    let mut i: usize = 0;
    while i < entries.len()
        invariant
            i <= entries@.len(),
            entries@.len() > 0,
            out@.len() == i,
            forall|k: int|
                0 <= k < i ==> direction_named(entries@[k].direction@) == Some((#[trigger] out@[k])@),
        decreases entries@.len() - i,
    {
        match normalize_direction(entries[i].direction.as_str()) {
            Ok(d) => out.push(d),
            Err(e) => {
                assert forall|k: int| 0 <= k < i implies direction_named(
                    entries@[k].direction@,
                ) is Some by {
                    assert(direction_named(entries@[k].direction@) == Some(out@[k]@));
                }
                assert(direction_named(entries@[i as int].direction@) is None);
                return Err(e);
            },
        }
        i = i + 1;
    }
    Ok(out)
}

/// The checks on a partner transaction before correlating with it: it must
/// belong to another company and must not be correlated already (its
/// metadata must not mention `"correlate"`).
pub fn check_partner(new_company: &str, partner_id: i64, partner_company: &str, partner_metadata: Option<&str>) -> (r: Result<(), CliError>)
    ensures
        partner_company@ == new_company@ ==> (r matches Err(CliError::Validation(m)) && m@
            == "cannot correlate with transaction #"@ + int_decimal(partner_id as int)
            + ": it belongs to the same company '"@ + new_company@ + "'"@),
        partner_company@ != new_company@ ==> match partner_metadata {
            Some(meta) => if has_substring(meta@, "\"correlate\""@) {
                r matches Err(CliError::Validation(m)) && m@ == "transaction #"@ + int_decimal(
                    partner_id as int,
                ) + " is already correlated"@
            } else {
                r is Ok
            },
            None => r is Ok,
        },
{
    if crate::text::str_eq(partner_company, new_company) {
        let mut m = "cannot correlate with transaction #".to_string();
        push_str(&mut m, i128_to_string(partner_id as i128).as_str());
        push_str(&mut m, ": it belongs to the same company '");
        push_str(&mut m, new_company);
        push_str(&mut m, "'");
        return Err(CliError::Validation(m));
    }
    if let Some(meta) = partner_metadata {
        if contains_text(meta, "\"correlate\"") {
            let mut m = "transaction #".to_string();
            push_str(&mut m, i128_to_string(partner_id as i128).as_str());
            push_str(&mut m, " is already correlated");
            return Err(CliError::Validation(m));
        }
    }
    Ok(())
}

/// The correlation marker `"correlate"` opens every metadata that carries
/// a correlation.
proof fn lemma_correlate_head_marks(id: int, rest: Seq<char>)
    ensures
        has_substring(correlate_head(id) + rest, "\"correlate\""@),
{
    reveal_strlit("{\"correlate\":");
    reveal_strlit("\"correlate\"");
    let head = "{\"correlate\":"@;
    let s = correlate_head(id) + rest;
    let t = "\"correlate\""@;
    assert(s == head + (int_decimal(id) + rest));
    assert(s.subrange(1, 1 + t.len() as int) =~= t);
    assert(occurs_at(s, t, 1));
}

/// A transaction is correlated at most once: once its metadata has been
/// merged with a correlation it holds the `"correlate"` marker, on which
/// `check_partner` refuses it as already correlated.
pub proof fn lemma_correlated_once(existing: Option<Seq<char>>, correlate_id: int)
    ensures
        has_substring(merged_metadata(existing, correlate_id), "\"correlate\""@),
{
    let m = merged_metadata(existing, correlate_id);
    match existing {
        None => lemma_correlate_head_marks(correlate_id, "}"@),
        Some(s) => if s.len() > 0 && s[0] == '{' {
            let rest = s.drop_first();
            if trim_front(rest).len() > 0 && trim_front(rest)[0] == '}' {
                lemma_correlate_head_marks(correlate_id, "}"@);
            } else {
                assert(m == correlate_head(correlate_id) + (","@ + rest));
                lemma_correlate_head_marks(correlate_id, ","@ + rest);
            }
        } else {
            assert(m == correlate_head(correlate_id) + (",\"ref\":"@ + json_quoted(s) + "}"@));
            lemma_correlate_head_marks(correlate_id, ",\"ref\":"@ + json_quoted(s) + "}"@);
        },
    }
}

/// A transaction posted with a correlation carries the marker too, so it
/// cannot itself be taken as a partner a second time.
pub proof fn lemma_posted_correlation_marked(user: Option<Seq<char>>, correlate: i64)
    ensures
        effective_metadata(user, Some(correlate)) matches Some(m) && has_substring(
            m,
            "\"correlate\""@,
        ),
{
    match user {
        None => lemma_correlate_head_marks(correlate as int, "}"@),
        Some(u) => {
            let m = effective_metadata(user, Some(correlate))->0;
            assert(m == correlate_head(correlate as int) + (",\"ref\":"@ + json_quoted(u) + "}"@));
            lemma_correlate_head_marks(correlate as int, ",\"ref\":"@ + json_quoted(u) + "}"@);
        },
    }
}

} // verus!
