//! The queries behind the reports: trial balances, accounts with their
//! totals, and tax summaries, each with its filters numbered in order.
use vstd::prelude::*;
use crate::cli::db::transactions::{
    add_text_filter, built_so_far, date_in_range, filters_keep_date, filters_sql,
    lemma_date_filter_texts, lemma_step_date, lemma_step_other, param_views, and_filter,
    text_filter, SqlComparison, SqlFilter, SqlParam, SqlParamView,
};
use crate::text_order::text_le;
use crate::text::{lowercase_text, push_str, to_lowercase};

verus! {

/// The `SELECT` of a trial balance: every account with its debit and credit
/// totals, joined through the transactions when a date bounds them.
pub open spec fn trial_balance_select(dated: bool) -> Seq<char> {
    if dated {
        "SELECT a.code, a.name, a.type, COALESCE(SUM(CASE WHEN e.direction = 'debit' THEN e.amount ELSE 0 END), 0), COALESCE(SUM(CASE WHEN e.direction = 'credit' THEN e.amount ELSE 0 END), 0) FROM accounts a LEFT JOIN (entries e JOIN transactions t ON t.id = e.transaction_id) ON e.company_slug = a.company_slug AND e.account_code = a.code"@
    } else {
        "SELECT a.code, a.name, a.type, COALESCE(SUM(CASE WHEN e.direction = 'debit' THEN e.amount ELSE 0 END), 0), COALESCE(SUM(CASE WHEN e.direction = 'credit' THEN e.amount ELSE 0 END), 0) FROM accounts a LEFT JOIN entries e ON e.company_slug = a.company_slug AND e.account_code = a.code"@
    }
}

/// The lowercase form of an optional type filter.
pub open spec fn lowered(o: Option<&str>) -> Option<Seq<char>> {
    match o {
        Some(t) => Some(lowercase_text(t@)),
        None => None,
    }
}

/// The filter for an optional lowercased text value.
pub open spec fn lowered_filter(v: Option<&str>, before: Seq<char>) -> Option<SqlFilter> {
    match v {
        Some(t) => Some(SqlFilter { before, after: ""@, value: SqlParamView::Text(lowercase_text(t@)) }),
        None => None,
    }
}

/// The filters of a trial balance: the account type (lowercased), then
/// the as-of date.
pub open spec fn trial_balance_filters(type_filter: Option<&str>, as_of: Option<&str>) -> Seq<SqlFilter> {
    and_filter(
        and_filter(Seq::empty(), lowered_filter(type_filter, " AND a.type = ?"@)),
        text_filter(as_of, " AND (t.date IS NULL OR t.date <= ?"@, ")"@),
    )
}

/// The SQL of a trial balance query.
pub open spec fn trial_balance_sql(type_filter: Option<&str>, as_of: Option<&str>) -> Seq<char> {
    trial_balance_select(as_of is Some) + " WHERE a.company_slug = ?1"@ + filters_sql(
        trial_balance_filters(type_filter, as_of),
        2,
    ) + " GROUP BY a.code, a.name, a.type ORDER BY a.code"@
}

/// The values bound to a report query: the company, then one per filter.
pub open spec fn report_values(company: Seq<char>, fs: Seq<SqlFilter>) -> Seq<SqlParamView> {
    seq![SqlParamView::Text(company)] + fs.map_values(|f: SqlFilter| f.value)
}

/// Appends the filter on a lowercased text value, when present.
fn add_lowered_filter(
    sql: &mut String,
    values: &mut Vec<SqlParam>,
    idx: &mut u32,
    v: Option<&str>,
    before: &str,
    Ghost(head): Ghost<Seq<char>>,
    Ghost(company): Ghost<Seq<char>>,
    Ghost(fs): Ghost<Seq<SqlFilter>>,
) -> (next: Ghost<Seq<SqlFilter>>)
    requires
        built_so_far(old(sql)@, old(values)@, *old(idx), head, company, fs),
        fs.len() < 12,
    ensures
        next@ == and_filter(fs, lowered_filter(v, before@)),
        next@.len() <= fs.len() + 1,
        built_so_far(final(sql)@, final(values)@, *final(idx), head, company, next@),
{
    match v {
        Some(t) => {
            let lowered = to_lowercase(t);
            let r = add_text_filter(sql, values, idx, Some(lowered.as_str()), before, "", Ghost(head), Ghost(company), Ghost(fs));
            r
        },
        None => Ghost(fs),
    }
}

/// Builds the trial balance query of a company: one row per account (even
/// without entries) with its debit and credit totals, optionally for one
/// account type and up to a date.
pub fn trial_balance_query(company_slug: &str, type_filter: Option<&str>, as_of: Option<&str>) -> (r: (String, Vec<SqlParam>))
    ensures
        r.0@ == trial_balance_sql(type_filter, as_of),
        param_views(r.1@) == report_values(company_slug@, trial_balance_filters(type_filter, as_of)),
{
    let mut sql = if as_of.is_some() {
        "SELECT a.code, a.name, a.type, COALESCE(SUM(CASE WHEN e.direction = 'debit' THEN e.amount ELSE 0 END), 0), COALESCE(SUM(CASE WHEN e.direction = 'credit' THEN e.amount ELSE 0 END), 0) FROM accounts a LEFT JOIN (entries e JOIN transactions t ON t.id = e.transaction_id) ON e.company_slug = a.company_slug AND e.account_code = a.code".to_string()
    } else {
        "SELECT a.code, a.name, a.type, COALESCE(SUM(CASE WHEN e.direction = 'debit' THEN e.amount ELSE 0 END), 0), COALESCE(SUM(CASE WHEN e.direction = 'credit' THEN e.amount ELSE 0 END), 0) FROM accounts a LEFT JOIN entries e ON e.company_slug = a.company_slug AND e.account_code = a.code".to_string()
    };
    push_str(&mut sql, " WHERE a.company_slug = ?1");
    let ghost head = sql@;
    let ghost company = company_slug@;
    let mut values: Vec<SqlParam> = Vec::new();
    values.push(SqlParam::Text(company_slug.to_owned()));
    let mut idx: u32 = 2;
    let ghost f0 = Seq::<SqlFilter>::empty();
    assert(sql@ =~= head + filters_sql(f0, 2));
    assert(param_views(values@) =~= seq![SqlParamView::Text(company)] + f0.map_values(
        |f: SqlFilter| f.value,
    ));
    let Ghost(f1) = add_lowered_filter(&mut sql, &mut values, &mut idx, type_filter, " AND a.type = ?", Ghost(head), Ghost(company), Ghost(f0));
    let Ghost(f2) = add_text_filter(&mut sql, &mut values, &mut idx, as_of, " AND (t.date IS NULL OR t.date <= ?", ")", Ghost(head), Ghost(company), Ghost(f1));
    push_str(&mut sql, " GROUP BY a.code, a.name, a.type ORDER BY a.code");
    assert(f2 == trial_balance_filters(type_filter, as_of));
    (sql, values)
}

/// The `SELECT` of accounts with their totals and default tax category.
pub open spec fn accounts_with_balances_select(dated: bool) -> Seq<char> {
    if dated {
        "SELECT a.code, a.name, a.type, a.default_tax_category, COALESCE(SUM(CASE WHEN e.direction = 'debit' THEN e.amount ELSE 0 END), 0), COALESCE(SUM(CASE WHEN e.direction = 'credit' THEN e.amount ELSE 0 END), 0) FROM accounts a LEFT JOIN (entries e JOIN transactions t ON t.id = e.transaction_id) ON e.company_slug = a.company_slug AND e.account_code = a.code"@
    } else {
        "SELECT a.code, a.name, a.type, a.default_tax_category, COALESCE(SUM(CASE WHEN e.direction = 'debit' THEN e.amount ELSE 0 END), 0), COALESCE(SUM(CASE WHEN e.direction = 'credit' THEN e.amount ELSE 0 END), 0) FROM accounts a LEFT JOIN entries e ON e.company_slug = a.company_slug AND e.account_code = a.code"@
    }
}

/// The filters of an accounts-with-totals listing: the account type
/// (lowercased), a name substring, then the as-of date.
pub open spec fn accounts_with_balances_filters(
    type_filter: Option<&str>,
    name_filter: Option<&str>,
    as_of: Option<&str>,
) -> Seq<SqlFilter> {
    and_filter(
        and_filter(
            and_filter(Seq::empty(), lowered_filter(type_filter, " AND a.type = ?"@)),
            text_filter(name_filter, " AND a.name LIKE '%' || ?"@, " || '%'"@),
        ),
        text_filter(as_of, " AND (t.date IS NULL OR t.date <= ?"@, ")"@),
    )
}

/// The SQL of an accounts-with-totals query.
pub open spec fn accounts_with_balances_sql(
    type_filter: Option<&str>,
    name_filter: Option<&str>,
    as_of: Option<&str>,
) -> Seq<char> {
    accounts_with_balances_select(as_of is Some) + " WHERE a.company_slug = ?1"@ + filters_sql(
        accounts_with_balances_filters(type_filter, name_filter, as_of),
        2,
    ) + " GROUP BY a.code, a.name, a.type, a.default_tax_category ORDER BY a.code"@
}

/// Builds the query listing a company's accounts with their debit and
/// credit totals, optionally by type, by a name substring and up to a
/// date.
pub fn accounts_with_balances_query(
    company_slug: &str,
    type_filter: Option<&str>,
    name_filter: Option<&str>,
    as_of: Option<&str>,
) -> (r: (String, Vec<SqlParam>))
    ensures
        r.0@ == accounts_with_balances_sql(type_filter, name_filter, as_of),
        param_views(r.1@) == report_values(
            company_slug@,
            accounts_with_balances_filters(type_filter, name_filter, as_of),
        ),
{
    let mut sql = if as_of.is_some() {
        "SELECT a.code, a.name, a.type, a.default_tax_category, COALESCE(SUM(CASE WHEN e.direction = 'debit' THEN e.amount ELSE 0 END), 0), COALESCE(SUM(CASE WHEN e.direction = 'credit' THEN e.amount ELSE 0 END), 0) FROM accounts a LEFT JOIN (entries e JOIN transactions t ON t.id = e.transaction_id) ON e.company_slug = a.company_slug AND e.account_code = a.code".to_string()
    } else {
        "SELECT a.code, a.name, a.type, a.default_tax_category, COALESCE(SUM(CASE WHEN e.direction = 'debit' THEN e.amount ELSE 0 END), 0), COALESCE(SUM(CASE WHEN e.direction = 'credit' THEN e.amount ELSE 0 END), 0) FROM accounts a LEFT JOIN entries e ON e.company_slug = a.company_slug AND e.account_code = a.code".to_string()
    };
    push_str(&mut sql, " WHERE a.company_slug = ?1");
    let ghost head = sql@;
    let ghost company = company_slug@;
    let mut values: Vec<SqlParam> = Vec::new();
    values.push(SqlParam::Text(company_slug.to_owned()));
    let mut idx: u32 = 2;
    let ghost f0 = Seq::<SqlFilter>::empty();
    assert(sql@ =~= head + filters_sql(f0, 2));
    assert(param_views(values@) =~= seq![SqlParamView::Text(company)] + f0.map_values(
        |f: SqlFilter| f.value,
    ));
    let Ghost(f1) = add_lowered_filter(&mut sql, &mut values, &mut idx, type_filter, " AND a.type = ?", Ghost(head), Ghost(company), Ghost(f0));
    let Ghost(f2) = add_text_filter(&mut sql, &mut values, &mut idx, name_filter, " AND a.name LIKE '%' || ?", " || '%'", Ghost(head), Ghost(company), Ghost(f1));
    let Ghost(f3) = add_text_filter(&mut sql, &mut values, &mut idx, as_of, " AND (t.date IS NULL OR t.date <= ?", ")", Ghost(head), Ghost(company), Ghost(f2));
    push_str(&mut sql, " GROUP BY a.code, a.name, a.type, a.default_tax_category ORDER BY a.code");
    assert(f3 == accounts_with_balances_filters(type_filter, name_filter, as_of));
    (sql, values)
}

/// The filters of a tax summary: from and to dates.
pub open spec fn tax_summary_filters(from_date: Option<&str>, to_date: Option<&str>) -> Seq<SqlFilter> {
    and_filter(
        and_filter(Seq::empty(), text_filter(from_date, " AND t.date >= ?"@, ""@)),
        text_filter(to_date, " AND t.date <= ?"@, ""@),
    )
}

/// The SQL of a tax summary query.
pub open spec fn tax_summary_sql(from_date: Option<&str>, to_date: Option<&str>) -> Seq<char> {
    "SELECT e.tax_category, SUM(CASE WHEN e.direction = 'debit' THEN e.amount ELSE 0 END), SUM(CASE WHEN e.direction = 'credit' THEN e.amount ELSE 0 END) FROM entries e JOIN transactions t ON t.id = e.transaction_id WHERE e.company_slug = ?1 AND e.tax_category IS NOT NULL"@
        + filters_sql(tax_summary_filters(from_date, to_date), 2)
        + " GROUP BY e.tax_category ORDER BY e.tax_category"@
}

/// Builds the query totalling a company's categorised entries per tax
/// category, optionally between two dates.
pub fn tax_summary_query(company_slug: &str, from_date: Option<&str>, to_date: Option<&str>) -> (r: (String, Vec<SqlParam>))
    ensures
        r.0@ == tax_summary_sql(from_date, to_date),
        param_views(r.1@) == report_values(company_slug@, tax_summary_filters(from_date, to_date)),
{
    let mut sql = "SELECT e.tax_category, SUM(CASE WHEN e.direction = 'debit' THEN e.amount ELSE 0 END), SUM(CASE WHEN e.direction = 'credit' THEN e.amount ELSE 0 END) FROM entries e JOIN transactions t ON t.id = e.transaction_id WHERE e.company_slug = ?1 AND e.tax_category IS NOT NULL".to_string();
    let ghost head = sql@;
    let ghost company = company_slug@;
    let mut values: Vec<SqlParam> = Vec::new();
    values.push(SqlParam::Text(company_slug.to_owned()));
    let mut idx: u32 = 2;
    let ghost f0 = Seq::<SqlFilter>::empty();
    assert(sql@ =~= head + filters_sql(f0, 2));
    assert(param_views(values@) =~= seq![SqlParamView::Text(company)] + f0.map_values(
        |f: SqlFilter| f.value,
    ));
    let Ghost(f1) = add_text_filter(&mut sql, &mut values, &mut idx, from_date, " AND t.date >= ?", "", Ghost(head), Ghost(company), Ghost(f0));
    let Ghost(f2) = add_text_filter(&mut sql, &mut values, &mut idx, to_date, " AND t.date <= ?", "", Ghost(head), Ghost(company), Ghost(f1));
    push_str(&mut sql, " GROUP BY e.tax_category ORDER BY e.tax_category");
    assert(f2 == tax_summary_filters(from_date, to_date));
    (sql, values)
}

/// A trial balance as of a date counts exactly the transactions dated on
/// or before it, the date itself included (for `YYYY-MM-DD` dates, in
/// calendar order: `lemma_ymd_text_order`); without a date it counts them
/// all. The type filter does not look at dates.
pub proof fn lemma_trial_balance_through_as_of(type_filter: Option<&str>, as_of: Option<&str>, d: Seq<char>)
    ensures
        filters_keep_date(trial_balance_filters(type_filter, as_of), d) == (as_of matches Some(a)
            ==> text_le(d, a@)),
{
    reveal_strlit(" AND a.type = ?");
    lemma_date_filter_texts();
    let f0 = Seq::<SqlFilter>::empty();
    assert(filters_keep_date(f0, d));
    let g1 = lowered_filter(type_filter, " AND a.type = ?"@);
    lemma_step_other(f0, g1, d);
    lemma_step_date(
        and_filter(f0, g1),
        as_of,
        " AND (t.date IS NULL OR t.date <= ?"@,
        ")"@,
        SqlComparison::Le,
        d,
    );
}

/// Accounts with their totals as of a date count exactly the transactions
/// dated on or before it, the date itself included; the type and name
/// filters do not look at dates.
pub proof fn lemma_accounts_with_balances_through_as_of(
    type_filter: Option<&str>,
    name_filter: Option<&str>,
    as_of: Option<&str>,
    d: Seq<char>,
)
    ensures
        filters_keep_date(accounts_with_balances_filters(type_filter, name_filter, as_of), d) == (
        as_of matches Some(a) ==> text_le(d, a@)),
{
    reveal_strlit(" AND a.type = ?");
    reveal_strlit(" AND a.name LIKE '%' || ?");
    lemma_date_filter_texts();
    let f0 = Seq::<SqlFilter>::empty();
    assert(filters_keep_date(f0, d));
    let g1 = lowered_filter(type_filter, " AND a.type = ?"@);
    lemma_step_other(f0, g1, d);
    let f1 = and_filter(f0, g1);
    let g2 = text_filter(name_filter, " AND a.name LIKE '%' || ?"@, " || '%'"@);
    lemma_step_other(f1, g2, d);
    lemma_step_date(
        and_filter(f1, g2),
        as_of,
        " AND (t.date IS NULL OR t.date <= ?"@,
        ")"@,
        SqlComparison::Le,
        d,
    );
}

/// A tax summary over a range totals exactly the entries of transactions
/// dated within it, both bounds included.
pub proof fn lemma_tax_summary_date_range(from_date: Option<&str>, to_date: Option<&str>, d: Seq<char>)
    ensures
        filters_keep_date(tax_summary_filters(from_date, to_date), d) == date_in_range(
            d,
            from_date,
            to_date,
        ),
{
    lemma_date_filter_texts();
    let f0 = Seq::<SqlFilter>::empty();
    assert(filters_keep_date(f0, d));
    lemma_step_date(f0, from_date, " AND t.date >= ?"@, ""@, SqlComparison::Ge, d);
    lemma_step_date(
        and_filter(f0, text_filter(from_date, " AND t.date >= ?"@, ""@)),
        to_date,
        " AND t.date <= ?"@,
        ""@,
        SqlComparison::Le,
        d,
    );
}

} // verus!
