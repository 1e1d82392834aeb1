//! Budgets: parameters, month ends, and the spreading of an annual amount
//! over twelve months.
use vstd::prelude::*;
use crate::cli::db::transactions::{param_views, SqlParam, SqlParamView};
use crate::text::{occurs_at, i128_to_string, int_decimal, nat_digits, padded_digits, push_padded_digits, push_str};
use crate::types::date::is_leap;
use crate::text_order::{date_before, lemma_four_places, lemma_two_places, lemma_ymd_text_order, text_le};
use crate::cli::commands::import_ofx::ymd_text;

verus! {

/// Parameters for setting one month's budget.
pub struct SetBudgetParams<'a> {
    /// The company.
    pub company_slug: &'a str,
    /// The account budgeted.
    pub account_code: &'a str,
    /// The currency code.
    pub currency: &'a str,
    /// The year.
    pub year: i32,
    /// The month, 1 to 12.
    pub month: i32,
    /// The amount in minor units.
    pub amount: i64,
    /// Optional notes.
    pub notes: Option<&'a str>,
}

/// Parameters for setting an annual budget.
pub struct SetAnnualBudgetParams<'a> {
    /// The company.
    pub company_slug: &'a str,
    /// The account budgeted.
    pub account_code: &'a str,
    /// The currency code.
    pub currency: &'a str,
    /// The year.
    pub year: i32,
    /// The amount for the whole year in minor units.
    pub annual_amount: i64,
    /// Optional notes.
    pub notes: Option<&'a str>,
}

/// Parameters for listing budgets.
pub struct ListBudgetParams<'a> {
    /// The company.
    pub company_slug: &'a str,
    /// The year.
    pub year: i32,
    /// Only this account.
    pub account_code: Option<&'a str>,
    /// Only this month.
    pub month: Option<i32>,
}

/// Parameters for computing budget variance.
pub struct BudgetVarianceParams<'a> {
    /// The company.
    pub company_slug: &'a str,
    /// The currency code.
    pub currency: &'a str,
    /// The year.
    pub year: i32,
    /// The first month of the range.
    pub from_month: i32,
    /// The last month of the range.
    pub to_month: i32,
    /// Only accounts of this type.
    pub account_type: Option<&'a str>,
    /// Whether accounts with actuals but no budget are included.
    pub include_unbudgeted: bool,
}

/// The number of days in a month: 30 in April, June, September and
/// November, 28 or 29 in February, 31 otherwise.
pub open spec fn month_days(year: int, month: int) -> int {
    if month == 4 || month == 6 || month == 9 || month == 11 {
        30
    } else if month == 2 {
        if is_leap(year) {
            29
        } else {
            28
        }
    } else {
        31
    }
}

/// A month number with at least two digits (a negative one keeps its sign).
pub open spec fn month_text(m: int) -> Seq<char> {
    if m >= 0 {
        padded_digits(m as nat, 2)
    } else {
        seq!['-'] + nat_digits((-m) as nat)
    }
}

/// Returns the last day of a month as `YYYY-MM-DD`.
pub fn last_day_of_month(year: i32, month: i32) -> (s: String)
    ensures
        s@ == int_decimal(year as int) + "-"@ + month_text(month as int) + "-"@ + padded_digits(
            month_days(year as int, month as int) as nat,
            2,
        ),
{
    let days: u128 = if month == 4 || month == 6 || month == 9 || month == 11 {
        30
    } else if month == 2 {
        if (year % 4 == 0 && year % 100 != 0) || (year % 400 == 0) {
            29
        } else {
            28
        }
    } else {
        31
    };
    let mut s = i128_to_string(year as i128);
    s.append("-");
    if month >= 0 {
        push_padded_digits(&mut s, month as u128, 2);
    } else {
        let m = i128_to_string(month as i128);
        s.append(m.as_str());
    }
    s.append("-");
    push_padded_digits(&mut s, days, 2);
    s
}

/// The budget of month `m` (1 to 12) when `annual` is spread over twelve
/// months: `annual / 12`, plus one for the first `annual % 12` months,
/// with Rust's truncating division.
pub open spec fn monthly_amount(annual: int, m: int) -> int {
    let base = if annual >= 0 {
        annual / 12
    } else {
        -((-annual) / 12)
    };
    let rem = annual - base * 12;
    base + if m <= rem {
        1int
    } else {
        0int
    }
}

/// The total of the months `1..=n` of a spread annual budget.
pub open spec fn spread_total(annual: int, n: int) -> int
    decreases n,
{
    if n <= 0 {
        0
    } else {
        spread_total(annual, n - 1) + monthly_amount(annual, n)
    }
}

/// Spreading an annual budget over twelve months loses nothing: the
/// monthly amounts add up to the annual amount. (A negative amount that is
/// not a multiple of twelve loses its truncated remainder, so it is left
/// out.)
pub proof fn lemma_spread_total(annual: int)
    requires
        annual >= 0 || annual % 12 == 0,
    ensures
        spread_total(annual, 12) == annual,
{
    if annual < 0 {
        lemma_spread_negative_multiple(annual, 12);
        return;
    }
    let base = annual / 12;
    let rem = annual % 12;
    assert(annual == base * 12 + rem);
    assert forall|n: int| 0 <= n <= 12 implies #[trigger] spread_total(annual, n) == base * n + if n
        <= rem {
        n
    } else {
        rem
    } by {
        lemma_spread_prefix(annual, n);
    }
}

/// For a negative multiple of twelve every month gets the same share.
proof fn lemma_spread_negative_multiple(annual: int, n: int)
    requires
        annual < 0,
        annual % 12 == 0,
        0 <= n <= 12,
    ensures
        spread_total(annual, n) == (annual / 12) * n,
    decreases n,
{
    let b = annual / 12;
    assert(annual == b * 12);
    assert(-annual == (-b) * 12);
    assert((-annual) / 12 == -b) by (nonlinear_arith)
        requires
            -annual == (-b) * 12,
    ;
    if n > 0 {
        assert(monthly_amount(annual, n) == b);
        lemma_spread_negative_multiple(annual, n - 1);
        assert(b * n == b * (n - 1) + b) by (nonlinear_arith);
    } else {
        assert(b * n == 0) by (nonlinear_arith)
            requires
                n == 0;
    }
}

proof fn lemma_spread_prefix(annual: int, n: int)
    requires
        annual >= 0,
        0 <= n <= 12,
    ensures
        spread_total(annual, n) == (annual / 12) * n + if n <= annual % 12 {
            n
        } else {
            annual % 12
        },
    decreases n,
{
    let b = annual / 12;
    let r = annual % 12;
    assert(annual == b * 12 + r);
    assert(monthly_amount(annual, n) == b + if n <= r {
        1int
    } else {
        0int
    });
    if n > 0 {
        lemma_spread_prefix(annual, n - 1);
        assert(b * n == b * (n - 1) + b) by (nonlinear_arith);
        assert(spread_total(annual, n) == spread_total(annual, n - 1) + monthly_amount(annual, n));
    } else {
        assert(b * n == 0) by (nonlinear_arith)
            requires
                n == 0;
    }
}

/// The quotient and remainder of `annual` by twelve, truncated toward zero
/// as Rust's `/` and `%` do on signed integers.
fn truncating_div_rem_12(annual: i64) -> (r: (i64, i64))
    ensures
        r.0 == (if annual >= 0 {
            annual / 12
        } else {
            -((-annual) / 12)
        }),
        r.1 == annual - r.0 * 12,
        -11 <= r.1 <= 11,
{
    if annual >= 0 {
        let a: u64 = annual as u64;
        let q: u64 = a / 12;
        let m: u64 = a % 12;
        (q as i64, m as i64)
    } else {
        let a: u64 = (0i128 - annual as i128) as u64;
        let q: u64 = a / 12;
        let m: u64 = a % 12;
        assert(a == q * 12 + m);
        (0i64 - q as i64, 0i64 - m as i64)
    }
}

/// The monthly budgets of an annual amount spread over twelve months: the
/// first `annual % 12` months get one unit more than `annual / 12`.
pub fn monthly_amounts(annual: i64) -> (r: Vec<i64>)
    ensures
        r@.len() == 12,
        forall|m: int| 1 <= m <= 12 ==> #[trigger] r@[m - 1] == monthly_amount(annual as int, m),
{
    let (base, remainder) = truncating_div_rem_12(annual);
    let mut r: Vec<i64> = Vec::new();
    let mut m: i64 = 1;
    while m <= 12
        invariant
            1 <= m <= 13,
            r@.len() == m - 1,
            base == (if annual >= 0 {
                annual / 12
            } else {
                -((-annual) / 12)
            }),
            remainder == annual - base * 12,
            -11 <= remainder <= 11,
            forall|k: int| 1 <= k < m ==> #[trigger] r@[k - 1] == monthly_amount(annual as int, k),
        decreases 13 - m,
    {
        let extra: i64 = if m <= remainder {
            1
        } else {
            0
        };
        r.push(base + extra);
        m = m + 1;
    }
    r
}

/// The `SELECT` of a budget listing, before its optional filters.
pub open spec fn budgets_select() -> Seq<char> {
    "SELECT id, company_slug, account_code, currency, year, month, amount, notes, created_at FROM budgets WHERE company_slug = ?1 AND year = ?2"@
}

/// The SQL of a budget listing: the optional account filter as
/// placeholder 3, the optional month filter after it.
pub open spec fn list_budgets_sql(p: ListBudgetParams) -> Seq<char> {
    budgets_select() + match p.account_code {
        Some(_) => " AND account_code = ?3"@,
        None => Seq::empty(),
    } + match p.month {
        Some(_) => " AND month = ?"@ + int_decimal(if p.account_code is Some {
            4
        } else {
            3
        }),
        None => Seq::empty(),
    } + " ORDER BY account_code, month"@
}

/// The values bound to a budget listing: company, year, then the present
/// filters.
pub open spec fn list_budgets_values(p: ListBudgetParams) -> Seq<SqlParamView> {
    seq![SqlParamView::Text(p.company_slug@), SqlParamView::Integer(p.year as int)] + match p.account_code {
        Some(c) => seq![SqlParamView::Text(c@)],
        None => Seq::empty(),
    } + match p.month {
        Some(m) => seq![SqlParamView::Integer(m as int)],
        None => Seq::empty(),
    }
}

/// Builds the query listing a company's budgets for a year, optionally for
/// one account and one month, ordered by account and month.
pub fn list_budgets_query(p: &ListBudgetParams) -> (r: (String, Vec<SqlParam>))
    ensures
        r.0@ == list_budgets_sql(*p),
        param_views(r.1@) == list_budgets_values(*p),
{
    let mut sql = "SELECT id, company_slug, account_code, currency, year, month, amount, notes, created_at FROM budgets WHERE company_slug = ?1 AND year = ?2".to_string();
    let mut values: Vec<SqlParam> = Vec::new();
    values.push(SqlParam::Text(p.company_slug.to_string()));
    values.push(SqlParam::Integer(p.year as i64));
    if let Some(code) = p.account_code {
        push_str(&mut sql, " AND account_code = ?3");
        values.push(SqlParam::Text(code.to_string()));
    }
    if let Some(m) = p.month {
        push_str(&mut sql, " AND month = ?");
        if p.account_code.is_some() {
            push_str(&mut sql, "4");
        } else {
            push_str(&mut sql, "3");
        }
        values.push(SqlParam::Integer(m as i64));
    }
    push_str(&mut sql, " ORDER BY account_code, month");
    proof {
        reveal_strlit("3");
        reveal_strlit("4");
        assert(int_decimal(3) =~= "3"@);
        assert(int_decimal(4) =~= "4"@);
    }
    assert(sql@ =~= list_budgets_sql(*p));
    assert(param_views(values@) =~= list_budgets_values(*p));
    (sql, values)
}

/// Appends a month number with at least two digits.
pub(crate) fn push_month(out: &mut String, month: i32)
    ensures
        final(out)@ == old(out)@ + month_text(month as int),
{
    if month >= 0 {
        push_padded_digits(out, month as u128, 2);
    } else {
        let m = i128_to_string(month as i128);
        out.append(m.as_str());
        assert(int_decimal(month as int) =~= month_text(month as int));
    }
}

/// The first day of a variance report, `YYYY-MM-01`.
pub open spec fn variance_from_date(year: int, from_month: int) -> Seq<char> {
    int_decimal(year) + "-"@ + month_text(from_month) + "-01"@
}

/// The variance query over budgeted accounts only, before its type filter.
pub open spec fn variance_budget_only_head() -> Seq<char> {
    "WITH budget_totals AS ( SELECT account_code, SUM(amount) AS total FROM budgets WHERE company_slug = ?1 AND currency = ?2 AND year = ?3 AND month >= ?4 AND month <= ?5 GROUP BY account_code ), actual_totals AS ( SELECT e.account_code, CASE WHEN a.type IN ('asset', 'expense') THEN COALESCE(SUM(CASE WHEN e.direction = 'debit' THEN e.amount ELSE 0 END), 0) - COALESCE(SUM(CASE WHEN e.direction = 'credit' THEN e.amount ELSE 0 END), 0) ELSE COALESCE(SUM(CASE WHEN e.direction = 'credit' THEN e.amount ELSE 0 END), 0) - COALESCE(SUM(CASE WHEN e.direction = 'debit' THEN e.amount ELSE 0 END), 0) END AS total FROM entries e JOIN transactions t ON t.id = e.transaction_id AND t.company_slug = e.company_slug JOIN accounts a ON a.company_slug = e.company_slug AND a.code = e.account_code WHERE e.company_slug = ?1 AND t.currency = ?2 AND t.date >= ?6 AND t.date <= ?7 GROUP BY e.account_code ) SELECT a.code, a.name, a.type, COALESCE(b.total, 0) AS budget, COALESCE(act.total, 0) AS actual, CASE WHEN a.type = 'expense' THEN COALESCE(b.total, 0) - COALESCE(act.total, 0) ELSE COALESCE(act.total, 0) - COALESCE(b.total, 0) END AS variance, CASE WHEN COALESCE(b.total, 0) = 0 THEN NULL WHEN a.type = 'expense' THEN ROUND(CAST(COALESCE(b.total, 0) - COALESCE(act.total, 0) AS REAL) / b.total * 100, 1) ELSE ROUND(CAST(COALESCE(act.total, 0) - COALESCE(b.total, 0) AS REAL) / b.total * 100, 1) END AS variance_pct, CASE WHEN a.type = 'expense' THEN COALESCE(b.total, 0) >= COALESCE(act.total, 0) ELSE COALESCE(act.total, 0) >= COALESCE(b.total, 0) END AS favorable FROM budget_totals b JOIN accounts a ON a.company_slug = ?1 AND a.code = b.account_code LEFT JOIN actual_totals act ON act.account_code = b.account_code WHERE 1=1"@
}

/// The variance query that also lists unbudgeted accounts with actuals,
/// before its type filter.
pub open spec fn variance_with_unbudgeted_head() -> Seq<char> {
    "WITH budget_totals AS ( SELECT account_code, SUM(amount) AS total FROM budgets WHERE company_slug = ?1 AND currency = ?2 AND year = ?3 AND month >= ?4 AND month <= ?5 GROUP BY account_code ), actual_totals AS ( SELECT e.account_code, CASE WHEN a.type IN ('asset', 'expense') THEN COALESCE(SUM(CASE WHEN e.direction = 'debit' THEN e.amount ELSE 0 END), 0) - COALESCE(SUM(CASE WHEN e.direction = 'credit' THEN e.amount ELSE 0 END), 0) ELSE COALESCE(SUM(CASE WHEN e.direction = 'credit' THEN e.amount ELSE 0 END), 0) - COALESCE(SUM(CASE WHEN e.direction = 'debit' THEN e.amount ELSE 0 END), 0) END AS total FROM entries e JOIN transactions t ON t.id = e.transaction_id AND t.company_slug = e.company_slug JOIN accounts a ON a.company_slug = e.company_slug AND a.code = e.account_code WHERE e.company_slug = ?1 AND t.currency = ?2 AND t.date >= ?6 AND t.date <= ?7 GROUP BY e.account_code ), combined AS ( SELECT account_code FROM budget_totals UNION SELECT account_code FROM actual_totals ) SELECT a.code, a.name, a.type, COALESCE(b.total, 0) AS budget, COALESCE(act.total, 0) AS actual, CASE WHEN a.type = 'expense' THEN COALESCE(b.total, 0) - COALESCE(act.total, 0) ELSE COALESCE(act.total, 0) - COALESCE(b.total, 0) END AS variance, CASE WHEN COALESCE(b.total, 0) = 0 THEN NULL WHEN a.type = 'expense' THEN ROUND(CAST(COALESCE(b.total, 0) - COALESCE(act.total, 0) AS REAL) / b.total * 100, 1) ELSE ROUND(CAST(COALESCE(act.total, 0) - COALESCE(b.total, 0) AS REAL) / b.total * 100, 1) END AS variance_pct, CASE WHEN a.type = 'expense' THEN COALESCE(b.total, 0) >= COALESCE(act.total, 0) ELSE COALESCE(act.total, 0) >= COALESCE(b.total, 0) END AS favorable FROM combined c JOIN accounts a ON a.company_slug = ?1 AND a.code = c.account_code LEFT JOIN budget_totals b ON b.account_code = c.account_code LEFT JOIN actual_totals act ON act.account_code = c.account_code WHERE 1=1"@
}

/// The budget variance query: budgeted accounts only, or also unbudgeted
/// accounts with actuals; the account type, when filtered, is placeholder 8.
pub open spec fn variance_sql(has_type_filter: bool, include_unbudgeted: bool) -> Seq<char> {
    (if include_unbudgeted {
        variance_with_unbudgeted_head()
    } else {
        variance_budget_only_head()
    }) + (if has_type_filter {
        " AND a.type = ?8"@
    } else {
        Seq::empty()
    }) + " ORDER BY a.code"@
}

/// The values bound to a variance query: company, currency, year, the month
/// range, the date range, then the account type when filtered.
pub open spec fn variance_values(p: BudgetVarianceParams) -> Seq<SqlParamView> {
    seq![
        SqlParamView::Text(p.company_slug@),
        SqlParamView::Text(p.currency@),
        SqlParamView::Integer(p.year as int),
        SqlParamView::Integer(p.from_month as int),
        SqlParamView::Integer(p.to_month as int),
        SqlParamView::Text(variance_from_date(p.year as int, p.from_month as int)),
        SqlParamView::Text(
            int_decimal(p.year as int) + "-"@ + month_text(p.to_month as int) + "-"@ + padded_digits(
                month_days(p.year as int, p.to_month as int) as nat,
                2,
            ),
        ),
    ] + match p.account_type {
        Some(t) => seq![SqlParamView::Text(t@)],
        None => Seq::empty(),
    }
}

/// Builds the budget variance query and its values: budgets against
/// actual totals of the entries dated within the months, for budgeted
/// accounts only or also for unbudgeted ones.
pub fn variance_query(p: &BudgetVarianceParams) -> (r: (String, Vec<SqlParam>))
    ensures
        r.0@ == variance_sql(p.account_type is Some, p.include_unbudgeted),
        param_views(r.1@) == variance_values(*p),
{
    let mut sql = if p.include_unbudgeted {
        "WITH budget_totals AS ( SELECT account_code, SUM(amount) AS total FROM budgets WHERE company_slug = ?1 AND currency = ?2 AND year = ?3 AND month >= ?4 AND month <= ?5 GROUP BY account_code ), actual_totals AS ( SELECT e.account_code, CASE WHEN a.type IN ('asset', 'expense') THEN COALESCE(SUM(CASE WHEN e.direction = 'debit' THEN e.amount ELSE 0 END), 0) - COALESCE(SUM(CASE WHEN e.direction = 'credit' THEN e.amount ELSE 0 END), 0) ELSE COALESCE(SUM(CASE WHEN e.direction = 'credit' THEN e.amount ELSE 0 END), 0) - COALESCE(SUM(CASE WHEN e.direction = 'debit' THEN e.amount ELSE 0 END), 0) END AS total FROM entries e JOIN transactions t ON t.id = e.transaction_id AND t.company_slug = e.company_slug JOIN accounts a ON a.company_slug = e.company_slug AND a.code = e.account_code WHERE e.company_slug = ?1 AND t.currency = ?2 AND t.date >= ?6 AND t.date <= ?7 GROUP BY e.account_code ), combined AS ( SELECT account_code FROM budget_totals UNION SELECT account_code FROM actual_totals ) SELECT a.code, a.name, a.type, COALESCE(b.total, 0) AS budget, COALESCE(act.total, 0) AS actual, CASE WHEN a.type = 'expense' THEN COALESCE(b.total, 0) - COALESCE(act.total, 0) ELSE COALESCE(act.total, 0) - COALESCE(b.total, 0) END AS variance, CASE WHEN COALESCE(b.total, 0) = 0 THEN NULL WHEN a.type = 'expense' THEN ROUND(CAST(COALESCE(b.total, 0) - COALESCE(act.total, 0) AS REAL) / b.total * 100, 1) ELSE ROUND(CAST(COALESCE(act.total, 0) - COALESCE(b.total, 0) AS REAL) / b.total * 100, 1) END AS variance_pct, CASE WHEN a.type = 'expense' THEN COALESCE(b.total, 0) >= COALESCE(act.total, 0) ELSE COALESCE(act.total, 0) >= COALESCE(b.total, 0) END AS favorable FROM combined c JOIN accounts a ON a.company_slug = ?1 AND a.code = c.account_code LEFT JOIN budget_totals b ON b.account_code = c.account_code LEFT JOIN actual_totals act ON act.account_code = c.account_code WHERE 1=1".to_string()
    } else {
        "WITH budget_totals AS ( SELECT account_code, SUM(amount) AS total FROM budgets WHERE company_slug = ?1 AND currency = ?2 AND year = ?3 AND month >= ?4 AND month <= ?5 GROUP BY account_code ), actual_totals AS ( SELECT e.account_code, CASE WHEN a.type IN ('asset', 'expense') THEN COALESCE(SUM(CASE WHEN e.direction = 'debit' THEN e.amount ELSE 0 END), 0) - COALESCE(SUM(CASE WHEN e.direction = 'credit' THEN e.amount ELSE 0 END), 0) ELSE COALESCE(SUM(CASE WHEN e.direction = 'credit' THEN e.amount ELSE 0 END), 0) - COALESCE(SUM(CASE WHEN e.direction = 'debit' THEN e.amount ELSE 0 END), 0) END AS total FROM entries e JOIN transactions t ON t.id = e.transaction_id AND t.company_slug = e.company_slug JOIN accounts a ON a.company_slug = e.company_slug AND a.code = e.account_code WHERE e.company_slug = ?1 AND t.currency = ?2 AND t.date >= ?6 AND t.date <= ?7 GROUP BY e.account_code ) SELECT a.code, a.name, a.type, COALESCE(b.total, 0) AS budget, COALESCE(act.total, 0) AS actual, CASE WHEN a.type = 'expense' THEN COALESCE(b.total, 0) - COALESCE(act.total, 0) ELSE COALESCE(act.total, 0) - COALESCE(b.total, 0) END AS variance, CASE WHEN COALESCE(b.total, 0) = 0 THEN NULL WHEN a.type = 'expense' THEN ROUND(CAST(COALESCE(b.total, 0) - COALESCE(act.total, 0) AS REAL) / b.total * 100, 1) ELSE ROUND(CAST(COALESCE(act.total, 0) - COALESCE(b.total, 0) AS REAL) / b.total * 100, 1) END AS variance_pct, CASE WHEN a.type = 'expense' THEN COALESCE(b.total, 0) >= COALESCE(act.total, 0) ELSE COALESCE(act.total, 0) >= COALESCE(b.total, 0) END AS favorable FROM budget_totals b JOIN accounts a ON a.company_slug = ?1 AND a.code = b.account_code LEFT JOIN actual_totals act ON act.account_code = b.account_code WHERE 1=1".to_string()
    };
    if p.account_type.is_some() {
        push_str(&mut sql, " AND a.type = ?8");
    }
    push_str(&mut sql, " ORDER BY a.code");
    let mut from_date = i128_to_string(p.year as i128);
    push_str(&mut from_date, "-");
    push_month(&mut from_date, p.from_month);
    push_str(&mut from_date, "-01");
    let to_date = last_day_of_month(p.year, p.to_month);
    let mut values: Vec<SqlParam> = Vec::new();
    values.push(SqlParam::Text(p.company_slug.to_string()));
    values.push(SqlParam::Text(p.currency.to_string()));
    values.push(SqlParam::Integer(p.year as i64));
    values.push(SqlParam::Integer(p.from_month as i64));
    values.push(SqlParam::Integer(p.to_month as i64));
    values.push(SqlParam::Text(from_date));
    values.push(SqlParam::Text(to_date));
    if let Some(t) = p.account_type {
        values.push(SqlParam::Text(t.to_string()));
    }
    proof {
        reveal_strlit("");
    }
    assert(sql@ =~= variance_sql(p.account_type is Some, p.include_unbudgeted));
    assert(param_views(values@) =~= variance_values(*p));
    (sql, values)
}

/// The actuals of a variance report are the entries dated within its
/// months: the dates bound as placeholders 6 and 7 keep a calendar date
/// (`YYYY-MM-DD`, four-digit year) exactly when it falls in the report's
/// year, from the first day of `from_month` to the last day of `to_month`.
pub proof fn lemma_variance_window(p: BudgetVarianceParams, y: int, m: nat, dd: nat)
    requires
        1000 <= p.year <= 9999,
        1 <= p.from_month <= 12,
        1 <= p.to_month <= 12,
        1000 <= y <= 9999,
        1 <= m <= 12,
        1 <= dd <= month_days(y, m as int),
    ensures
        variance_values(p)[5] matches SqlParamView::Text(lo) && variance_values(p)[6] matches SqlParamView::Text(
            hi,
        ) && (text_le(lo, ymd_text(y, m, dd)) && text_le(ymd_text(y, m, dd), hi)) == (y == p.year
            && p.from_month <= m <= p.to_month),
{
    reveal_strlit("-");
    reveal_strlit("-01");
    let year = p.year as int;
    let from = p.from_month as nat;
    let to = p.to_month as nat;
    let last = month_days(year, to as int) as nat;
    lemma_four_places(year as nat);
    lemma_two_places(1);
    assert(padded_digits(1, 2) =~= seq!['0', '1']);
    let lo = variance_from_date(year, from as int);
    let hi = int_decimal(year) + "-"@ + month_text(to as int) + "-"@ + padded_digits(last, 2);
    assert(lo =~= ymd_text(year, from, 1));
    assert(hi =~= ymd_text(year, to, last));
    assert(variance_values(p)[5] == SqlParamView::Text(lo));
    assert(variance_values(p)[6] == SqlParamView::Text(hi));
    lemma_ymd_text_order(year, from, 1, y, m, dd);
    lemma_ymd_text_order(y, m, dd, year, to, last);
}

/// Whether a variance head bounds the budget months by placeholders 4
/// and 5 and the actuals' dates by placeholders 6 and 7, each range with
/// both bounds included.
proof fn lemma_head_bounds(head: Seq<char>)
    requires
        head.len() >= 861,
        head.subrange(134, 167) == " AND month >= ?4 AND month <= ?5 "@,
        head.subrange(826, 861) == " AND t.date >= ?6 AND t.date <= ?7 "@,
    ensures
        forall|tail: Seq<char>|
            occurs_at(head + tail, " AND month >= ?4 AND month <= ?5 "@, 134) && occurs_at(
                head + tail,
                " AND t.date >= ?6 AND t.date <= ?7 "@,
                826,
            ),
{
    reveal_strlit(" AND month >= ?4 AND month <= ?5 ");
    reveal_strlit(" AND t.date >= ?6 AND t.date <= ?7 ");
    assert forall|tail: Seq<char>|
        occurs_at(head + tail, " AND month >= ?4 AND month <= ?5 "@, 134) && occurs_at(
            head + tail,
            " AND t.date >= ?6 AND t.date <= ?7 "@,
            826,
        ) by {
        assert((head + tail).subrange(134, 167) =~= head.subrange(134, 167));
        assert((head + tail).subrange(826, 861) =~= head.subrange(826, 861));
    }
}

/// A variance query totals the budgets of the months from placeholder 4
/// to placeholder 5 and the actuals of the entries dated from placeholder
/// 6 to placeholder 7, every bound included; `lemma_variance_window` shows
/// that the two ranges cover the same months.
pub proof fn lemma_variance_bounds_inclusive(has_type_filter: bool, include_unbudgeted: bool)
    ensures
        occurs_at(variance_sql(has_type_filter, include_unbudgeted), " AND month >= ?4 AND month <= ?5 "@, 134),
        occurs_at(variance_sql(has_type_filter, include_unbudgeted), " AND t.date >= ?6 AND t.date <= ?7 "@, 826),
{
    reveal_strlit(" AND month >= ?4 AND month <= ?5 ");
    reveal_strlit(" AND t.date >= ?6 AND t.date <= ?7 ");
    reveal_strlit("WITH budget_totals AS ( SELECT account_code, SUM(amount) AS total FROM budgets WHERE company_slug = ?1 AND currency = ?2 AND year = ?3 AND month >= ?4 AND month <= ?5 GROUP BY account_code ), actual_totals AS ( SELECT e.account_code, CASE WHEN a.type IN ('asset', 'expense') THEN COALESCE(SUM(CASE WHEN e.direction = 'debit' THEN e.amount ELSE 0 END), 0) - COALESCE(SUM(CASE WHEN e.direction = 'credit' THEN e.amount ELSE 0 END), 0) ELSE COALESCE(SUM(CASE WHEN e.direction = 'credit' THEN e.amount ELSE 0 END), 0) - COALESCE(SUM(CASE WHEN e.direction = 'debit' THEN e.amount ELSE 0 END), 0) END AS total FROM entries e JOIN transactions t ON t.id = e.transaction_id AND t.company_slug = e.company_slug JOIN accounts a ON a.company_slug = e.company_slug AND a.code = e.account_code WHERE e.company_slug = ?1 AND t.currency = ?2 AND t.date >= ?6 AND t.date <= ?7 GROUP BY e.account_code ) SELECT a.code, a.name, a.type, COALESCE(b.total, 0) AS budget, COALESCE(act.total, 0) AS actual, CASE WHEN a.type = 'expense' THEN COALESCE(b.total, 0) - COALESCE(act.total, 0) ELSE COALESCE(act.total, 0) - COALESCE(b.total, 0) END AS variance, CASE WHEN COALESCE(b.total, 0) = 0 THEN NULL WHEN a.type = 'expense' THEN ROUND(CAST(COALESCE(b.total, 0) - COALESCE(act.total, 0) AS REAL) / b.total * 100, 1) ELSE ROUND(CAST(COALESCE(act.total, 0) - COALESCE(b.total, 0) AS REAL) / b.total * 100, 1) END AS variance_pct, CASE WHEN a.type = 'expense' THEN COALESCE(b.total, 0) >= COALESCE(act.total, 0) ELSE COALESCE(act.total, 0) >= COALESCE(b.total, 0) END AS favorable FROM budget_totals b JOIN accounts a ON a.company_slug = ?1 AND a.code = b.account_code LEFT JOIN actual_totals act ON act.account_code = b.account_code WHERE 1=1");
    reveal_strlit("WITH budget_totals AS ( SELECT account_code, SUM(amount) AS total FROM budgets WHERE company_slug = ?1 AND currency = ?2 AND year = ?3 AND month >= ?4 AND month <= ?5 GROUP BY account_code ), actual_totals AS ( SELECT e.account_code, CASE WHEN a.type IN ('asset', 'expense') THEN COALESCE(SUM(CASE WHEN e.direction = 'debit' THEN e.amount ELSE 0 END), 0) - COALESCE(SUM(CASE WHEN e.direction = 'credit' THEN e.amount ELSE 0 END), 0) ELSE COALESCE(SUM(CASE WHEN e.direction = 'credit' THEN e.amount ELSE 0 END), 0) - COALESCE(SUM(CASE WHEN e.direction = 'debit' THEN e.amount ELSE 0 END), 0) END AS total FROM entries e JOIN transactions t ON t.id = e.transaction_id AND t.company_slug = e.company_slug JOIN accounts a ON a.company_slug = e.company_slug AND a.code = e.account_code WHERE e.company_slug = ?1 AND t.currency = ?2 AND t.date >= ?6 AND t.date <= ?7 GROUP BY e.account_code ), combined AS ( SELECT account_code FROM budget_totals UNION SELECT account_code FROM actual_totals ) SELECT a.code, a.name, a.type, COALESCE(b.total, 0) AS budget, COALESCE(act.total, 0) AS actual, CASE WHEN a.type = 'expense' THEN COALESCE(b.total, 0) - COALESCE(act.total, 0) ELSE COALESCE(act.total, 0) - COALESCE(b.total, 0) END AS variance, CASE WHEN COALESCE(b.total, 0) = 0 THEN NULL WHEN a.type = 'expense' THEN ROUND(CAST(COALESCE(b.total, 0) - COALESCE(act.total, 0) AS REAL) / b.total * 100, 1) ELSE ROUND(CAST(COALESCE(act.total, 0) - COALESCE(b.total, 0) AS REAL) / b.total * 100, 1) END AS variance_pct, CASE WHEN a.type = 'expense' THEN COALESCE(b.total, 0) >= COALESCE(act.total, 0) ELSE COALESCE(act.total, 0) >= COALESCE(b.total, 0) END AS favorable FROM combined c JOIN accounts a ON a.company_slug = ?1 AND a.code = c.account_code LEFT JOIN budget_totals b ON b.account_code = c.account_code LEFT JOIN actual_totals act ON act.account_code = c.account_code WHERE 1=1");
    assert(variance_budget_only_head().subrange(134, 167) =~= " AND month >= ?4 AND month <= ?5 "@);
    assert(variance_budget_only_head().subrange(826, 861) =~= " AND t.date >= ?6 AND t.date <= ?7 "@);
    assert(variance_with_unbudgeted_head().subrange(134, 167) =~= " AND month >= ?4 AND month <= ?5 "@);
    assert(variance_with_unbudgeted_head().subrange(826, 861) =~= " AND t.date >= ?6 AND t.date <= ?7 "@);
    lemma_head_bounds(variance_budget_only_head());
    lemma_head_bounds(variance_with_unbudgeted_head());
    let head = if include_unbudgeted {
        variance_with_unbudgeted_head()
    } else {
        variance_budget_only_head()
    };
    let tail = (if has_type_filter {
        " AND a.type = ?8"@
    } else {
        Seq::empty()
    }) + " ORDER BY a.code"@;
    assert(variance_sql(has_type_filter, include_unbudgeted) =~= head + tail);
}

} // verus!
