//! The pure parts of `bk report`: titles, the month range of a budget
//! variance report, and the table of a financial statement with its
//! totals and closing status.
use vstd::prelude::*;
use crate::cli::db::BalanceRow;
use crate::cli::error::CliError;
use crate::types::currency::{currency_named, Currency};
use crate::cli::output::table::{
    abs_nat, amount_text, bold_cells, bold_header, capitalize_first, capitalized, cells_view,
    format_amount, grand_totals, grid_text, lemma_rows_push, lemma_take_map_push, push_line, render_grid,
    rows_view, styled, styled_text, terminal_width,
    trial_status_line, GridCell, GridStyle, TextStyle,
};
use crate::text::{
    clamp_i64, i128_to_string, int_decimal, join_lines, join_with_newlines, push_str,
    saturating_add_i64, saturating_sub_i64, string_views,
};

verus! {

/// A report title qualified by its period and currency:
/// `Base (from to to) (CUR)`, `Base (from from) (CUR)`,
/// `Base (through to) (CUR)` or `Base (CUR)`.
pub open spec fn period_title(base: Seq<char>, currency: Seq<char>, from: Option<Seq<char>>, to: Option<Seq<char>>) -> Seq<char> {
    base + match (from, to) {
        (Some(f), Some(t)) => " ("@ + f + " to "@ + t + ")"@,
        (Some(f), None) => " (from "@ + f + ")"@,
        (None, Some(t)) => " (through "@ + t + ")"@,
        (None, None) => Seq::empty(),
    } + " ("@ + currency + ")"@
}

/// The text of an optional string slice.
pub open spec fn opt_str(o: Option<&str>) -> Option<Seq<char>> {
    match o {
        Some(s) => Some(s@),
        None => None,
    }
}

/// Builds a period-qualified report title.
pub fn build_period_title(base: &str, currency_code: &str, from: Option<&str>, to: Option<&str>) -> (r: String)
    ensures
        r@ == period_title(base@, currency_code@, opt_str(from), opt_str(to)),
{
    let mut out = base.to_string();
    match (from, to) {
        (Some(f), Some(t)) => {
            push_str(&mut out, " (");
            push_str(&mut out, f);
            push_str(&mut out, " to ");
            push_str(&mut out, t);
            push_str(&mut out, ")");
        },
        (Some(f), None) => {
            push_str(&mut out, " (from ");
            push_str(&mut out, f);
            push_str(&mut out, ")");
        },
        (None, Some(t)) => {
            push_str(&mut out, " (through ");
            push_str(&mut out, t);
            push_str(&mut out, ")");
        },
        (None, None) => {},
    }
    push_str(&mut out, " (");
    push_str(&mut out, currency_code);
    push_str(&mut out, ")");
    assert(out@ =~= period_title(base@, currency_code@, opt_str(from), opt_str(to)));
    out
}

/// Whether a statement checks that debits equal credits, or shows the net
/// income.
#[derive(Debug, Clone, Copy, PartialEq, Eq, Structural)]
pub enum ReportKind {
    /// Balance sheet or trial balance: debits must equal credits.
    BalanceCheck,
    /// Income statement: the difference is the net income or loss.
    IncomeStatement,
}

/// The closing line of an income statement: credits less debits
/// (saturating), as a net income when not negative, else as a net loss.
pub open spec fn net_income_line(d: int, c: int, dp: nat, use_color: bool) -> Seq<char> {
    let net = clamp_i64(c - d);
    if net >= 0 {
        styled_text("Net Income: "@ + amount_text(net, dp), TextStyle::Green, use_color)
    } else {
        styled_text("Net Loss: "@ + amount_text(-net, dp), TextStyle::RedBold, use_color)
    }
}

/// The line of grand totals of a statement.
pub open spec fn totals_line(d: int, c: int, dp: nat, use_color: bool) -> Seq<char> {
    "Totals:  DR "@ + styled_text(amount_text(d, dp), TextStyle::Bold, use_color) + "  CR "@
        + styled_text(amount_text(c, dp), TextStyle::Bold, use_color)
}

/// The closing status line of a statement of the given kind.
pub open spec fn status_line(kind: ReportKind, d: int, c: int, dp: nat, use_color: bool) -> Seq<char> {
    match kind {
        ReportKind::BalanceCheck => trial_status_line(d, c, dp, use_color),
        ReportKind::IncomeStatement => net_income_line(d, c, dp, use_color),
    }
}

/// Whether the closing status of a statement can be computed without
/// overflow: the absolute value of the difference of the totals must be an
/// `i64`.
pub open spec fn status_fits(kind: ReportKind, d: int, c: int) -> bool {
    match kind {
        ReportKind::BalanceCheck => clamp_i64(d - c) != i64::MIN,
        ReportKind::IncomeStatement => clamp_i64(c - d) != i64::MIN,
    }
}

/// The cells of one row of a statement: code, account, type, and the debit
/// and credit totals.
pub open spec fn statement_cells(x: BalanceRow, dp: nat, use_color: bool) -> Seq<GridCell> {
    seq![
        (styled_text(x.code@, TextStyle::Cyan, use_color), false),
        (x.name@, false),
        (capitalized(x.account_type@), false),
        (amount_text(x.debit_total as int, dp), true),
        (amount_text(x.credit_total as int, dp), true),
    ]
}

/// The table of a statement at a width.
pub open spec fn statement_table(bs: Seq<BalanceRow>, dp: nat, use_color: bool, width: Option<u16>) -> Seq<char> {
    grid_text(
        bold_header(seq!["Code"@, "Account"@, "Type"@, "Debit"@, "Credit"@], use_color),
        bs.map_values(|x: BalanceRow| statement_cells(x, dp, use_color)),
        GridStyle::Rounded,
        width,
    )
}

/// A financial statement at a width: its title, the table of its balances,
/// the grand totals and the closing status of its kind.
pub open spec fn statement_text(
    title: Seq<char>,
    bs: Seq<BalanceRow>,
    dp: nat,
    use_color: bool,
    kind: ReportKind,
    width: Option<u16>,
) -> Seq<char> {
    join_lines(
        seq![
            styled_text(title, TextStyle::Bold, use_color),
            Seq::empty(),
            statement_table(bs, dp, use_color, width),
            Seq::empty(),
            totals_line(grand_totals(bs).0, grand_totals(bs).1, dp, use_color),
            status_line(kind, grand_totals(bs).0, grand_totals(bs).1, dp, use_color),
        ],
    )
}

/// The rows of a statement (code, account, type, debit, credit) and the
/// saturating grand totals.
fn statement_rows(balances: &[BalanceRow], currency_minor_units: u8, use_color: bool) -> (r: (
    Vec<Vec<(String, bool)>>,
    i64,
    i64,
))
    requires
        currency_minor_units <= 19,
    ensures
        rows_view(r.0@) == balances@.map_values(
            |x: BalanceRow| statement_cells(x, currency_minor_units as nat, use_color),
        ),
        (r.1 as int, r.2 as int) == grand_totals(balances@),
{
    let dp = currency_minor_units;
    let mut rows: Vec<Vec<(String, bool)>> = Vec::new();
    let mut grand_debits: i64 = 0;
    let mut grand_credits: i64 = 0;
    let mut i: usize = 0;
    while i < balances.len()
        invariant
            i <= balances@.len(),
            dp <= 19,
            (grand_debits as int, grand_credits as int) == grand_totals(balances@.take(i as int)),
            rows_view(rows@) == balances@.take(i as int).map_values(
                |x: BalanceRow| statement_cells(x, dp as nat, use_color),
            ),
        decreases balances@.len() - i,
    {
        let x = &balances[i];
        grand_debits = saturating_add_i64(grand_debits, x.debit_total);
        grand_credits = saturating_add_i64(grand_credits, x.credit_total);
        let row = vec![
            (styled(x.code.as_str(), TextStyle::Cyan, use_color), false),
            (x.name.clone(), false),
            (capitalize_first(x.account_type.as_str()), false),
            (format_amount(x.debit_total, dp), true),
            (format_amount(x.credit_total, dp), true),
        ];
        proof {
            assert(cells_view(row@) =~= statement_cells(*x, dp as nat, use_color));
            lemma_rows_push(rows@, row);
            lemma_take_map_push(balances@, i as int, |x: BalanceRow| statement_cells(x, dp as nat, use_color));
            assert(balances@.take(i + 1).drop_last() =~= balances@.take(i as int));
        }
        rows.push(row);
        i = i + 1;
    }
    assert(balances@.take(i as int) =~= balances@);
    (rows, grand_debits, grand_credits)
}

/// Appends the table's text, a blank line, the totals and the closing
/// status.
fn append_totals_and_status(
    lines: &mut Vec<String>,
    text: String,
    grand_debits: i64,
    grand_credits: i64,
    currency_minor_units: u8,
    use_color: bool,
    kind: ReportKind,
)
    requires
        currency_minor_units <= 19,
        status_fits(kind, grand_debits as int, grand_credits as int),
    ensures
        string_views(final(lines)@) == string_views(old(lines)@) + seq![
            text@,
            Seq::empty(),
            totals_line(grand_debits as int, grand_credits as int, currency_minor_units as nat, use_color),
            status_line(kind, grand_debits as int, grand_credits as int, currency_minor_units as nat, use_color),
        ],
{
    let dp = currency_minor_units;
    let ghost t = text@;
    push_line(lines, text);
    push_line(lines, String::new());
    let mut totals = "Totals:  DR ".to_string();
    totals.append(styled(format_amount(grand_debits, dp).as_str(), TextStyle::Bold, use_color).as_str());
    push_str(&mut totals, "  CR ");
    totals.append(styled(format_amount(grand_credits, dp).as_str(), TextStyle::Bold, use_color).as_str());
    push_line(lines, totals);
    match kind {
        ReportKind::BalanceCheck => {
            if grand_debits == grand_credits {
                push_line(lines, styled("[ok] BALANCED", TextStyle::Green, use_color));
            } else {
                let diff = saturating_sub_i64(grand_debits, grand_credits);
                let magnitude: i64 = if diff < 0 {
                    -diff
                } else {
                    diff
                };
                let mut msg = "[!!] UNBALANCED (difference: ".to_string();
                msg.append(format_amount(magnitude, dp).as_str());
                push_str(&mut msg, ")");
                push_line(lines, styled(msg.as_str(), TextStyle::RedBold, use_color));
            }
        },
        ReportKind::IncomeStatement => {
            let net = saturating_sub_i64(grand_credits, grand_debits);
            let magnitude: i64 = if net < 0 {
                -net
            } else {
                net
            };
            if net >= 0 {
                let mut msg = "Net Income: ".to_string();
                msg.append(format_amount(magnitude, dp).as_str());
                push_line(lines, styled(msg.as_str(), TextStyle::Green, use_color));
            } else {
                let mut msg = "Net Loss: ".to_string();
                msg.append(format_amount(magnitude, dp).as_str());
                push_line(lines, styled(msg.as_str(), TextStyle::RedBold, use_color));
            }
        },
    }
    proof {
        reveal_strlit("");
    }
    assert(string_views(lines@) =~= string_views(old(lines)@) + seq![
        t,
        Seq::empty(),
        totals_line(grand_debits as int, grand_credits as int, dp as nat, use_color),
        status_line(kind, grand_debits as int, grand_credits as int, dp as nat, use_color),
    ]);
}

/// Renders a financial statement laid out to `width`: its title, a table
/// of the balances (code, account, type, debit, credit), the grand totals,
/// and the closing status of its kind.
pub fn render_report_table_at(
    title: &str,
    balances: &[BalanceRow],
    currency_minor_units: u8,
    use_color: bool,
    kind: ReportKind,
    width: Option<u16>,
) -> (r: String)
    requires
        currency_minor_units <= 19,
        status_fits(kind, grand_totals(balances@).0, grand_totals(balances@).1),
    ensures
        r@ == statement_text(title@, balances@, currency_minor_units as nat, use_color, kind, width),
{
    let mut lines: Vec<String> = Vec::new();
    push_line(&mut lines, styled(title, TextStyle::Bold, use_color));
    push_line(&mut lines, String::new());
    let names = vec!["Code", "Account", "Type", "Debit", "Credit"];
    assert(names@.map_values(|t: &str| t@) =~= seq!["Code"@, "Account"@, "Type"@, "Debit"@, "Credit"@]);
    let header = bold_cells(names, use_color);
    let (rows, grand_debits, grand_credits) = statement_rows(balances, currency_minor_units, use_color);
    let text = render_grid(&header, &rows, GridStyle::Rounded, width);
    assert(text@ == statement_table(balances@, currency_minor_units as nat, use_color, width));
    let ghost head = string_views(lines@);
    append_totals_and_status(
        &mut lines,
        text,
        grand_debits,
        grand_credits,
        currency_minor_units,
        use_color,
        kind,
    );
    proof {
        reveal_strlit("");
    }
    assert(string_views(lines@) =~= seq![
        styled_text(title@, TextStyle::Bold, use_color),
        Seq::empty(),
        statement_table(balances@, currency_minor_units as nat, use_color, width),
        Seq::empty(),
        totals_line(grand_debits as int, grand_credits as int, currency_minor_units as nat, use_color),
        status_line(kind, grand_debits as int, grand_credits as int, currency_minor_units as nat, use_color),
    ]);
    join_with_newlines(&lines)
}

/// Renders a financial statement laid out to the terminal's width: its
/// title, a table of the balances (code, account, type, debit, credit), the
/// grand totals, and the closing status of its kind.
pub fn render_report_table(
    title: &str,
    balances: &[BalanceRow],
    currency_minor_units: u8,
    use_color: bool,
    kind: ReportKind,
) -> (r: String)
    requires
        currency_minor_units <= 19,
        status_fits(kind, grand_totals(balances@).0, grand_totals(balances@).1),
    ensures
        exists|w: Option<u16>|
            r@ == statement_text(title@, balances@, currency_minor_units as nat, use_color, kind, w),
{
    render_report_table_at(title, balances, currency_minor_units, use_color, kind, terminal_width())
}

/// The three-letter name of month `m` (1 to 12).
pub open spec fn month_name(m: int) -> Seq<char> {
    if m == 1 { "Jan"@ }
    else if m == 2 { "Feb"@ }
    else if m == 3 { "Mar"@ }
    else if m == 4 { "Apr"@ }
    else if m == 5 { "May"@ }
    else if m == 6 { "Jun"@ }
    else if m == 7 { "Jul"@ }
    else if m == 8 { "Aug"@ }
    else if m == 9 { "Sep"@ }
    else if m == 10 { "Oct"@ }
    else if m == 11 { "Nov"@ }
    else { "Dec"@ }
}

/// The three-letter name of month `m` (1 to 12).
fn month_short_name(m: i32) -> (r: &'static str)
    requires
        1 <= m <= 12,
    ensures
        r@ == month_name(m as int),
{
    if m == 1 { "Jan" }
    else if m == 2 { "Feb" }
    else if m == 3 { "Mar" }
    else if m == 4 { "Apr" }
    else if m == 5 { "May" }
    else if m == 6 { "Jun" }
    else if m == 7 { "Jul" }
    else if m == 8 { "Aug" }
    else if m == 9 { "Sep" }
    else if m == 10 { "Oct" }
    else if m == 11 { "Nov" }
    else { "Dec" }
}

/// The title of a budget variance report: one month, the whole year, or a
/// range of months.
pub open spec fn variance_title(currency: Seq<char>, year: int, from_month: int, to_month: int) -> Seq<char> {
    "Budget vs. Actual -- "@ + int_decimal(year) + if from_month == to_month {
        " "@ + month_name(from_month)
    } else if from_month == 1 && to_month == 12 {
        Seq::empty()
    } else {
        " "@ + month_name(from_month) + "-"@ + month_name(to_month)
    } + " ("@ + currency + ")"@
}

/// Builds the title of a budget variance report.
pub fn build_variance_title(currency: &str, year: i32, from_month: i32, to_month: i32) -> (r: String)
    requires
        1 <= from_month <= 12,
        1 <= to_month <= 12,
    ensures
        r@ == variance_title(currency@, year as int, from_month as int, to_month as int),
{
    let mut out = "Budget vs. Actual -- ".to_string();
    out.append(i128_to_string(year as i128).as_str());
    if from_month == to_month {
        push_str(&mut out, " ");
        push_str(&mut out, month_short_name(from_month));
    } else if from_month == 1 && to_month == 12 {
    } else {
        push_str(&mut out, " ");
        push_str(&mut out, month_short_name(from_month));
        push_str(&mut out, "-");
        push_str(&mut out, month_short_name(to_month));
    }
    push_str(&mut out, " (");
    push_str(&mut out, currency);
    push_str(&mut out, ")");
    assert(out@ =~= variance_title(currency@, year as int, from_month as int, to_month as int));
    out
}

/// The months a budget variance report covers: a single month when given
/// (it must be 1 to 12), else `from` (default 1) through `to` (default 12),
/// both 1 to 12 and in order.
pub open spec fn month_range(month: Option<i32>, from: Option<i32>, to: Option<i32>) -> Result<(int, int), Seq<char>> {
    match month {
        Some(m) => if 1 <= m <= 12 {
            Ok((m as int, m as int))
        } else {
            Err("month must be 1-12, got "@ + int_decimal(m as int))
        },
        None => {
            let f: int = match from {
                Some(v) => v as int,
                None => 1,
            };
            let t: int = match to {
                Some(v) => v as int,
                None => 12,
            };
            if !(1 <= f <= 12) || !(1 <= t <= 12) {
                Err("from/to months must be 1-12"@)
            } else if f > t {
                Err("from month ("@ + int_decimal(f) + ") must be <= to month ("@ + int_decimal(t)
                    + ")"@)
            } else {
                Ok((f, t))
            }
        },
    }
}

/// Resolves the months a budget variance report covers; a validation
/// error names what is wrong.
pub fn resolve_month_range(month: Option<i32>, from: Option<i32>, to: Option<i32>) -> (r: Result<(i32, i32), CliError>)
    ensures
        match month_range(month, from, to) {
            Ok((f, t)) => r matches Ok((a, b)) && a == f && b == t,
            Err(msg) => r matches Err(CliError::Validation(m)) && m@ == msg,
        },
{
    match month {
        Some(m) => {
            if 1 <= m && m <= 12 {
                Ok((m, m))
            } else {
                let mut msg = "month must be 1-12, got ".to_string();
                msg.append(i128_to_string(m as i128).as_str());
                Err(CliError::Validation(msg))
            }
        },
        None => {
            let f: i32 = match from {
                Some(v) => v,
                None => 1,
            };
            let t: i32 = match to {
                Some(v) => v,
                None => 12,
            };
            if !(1 <= f && f <= 12) || !(1 <= t && t <= 12) {
                Err(CliError::Validation("from/to months must be 1-12".to_string()))
            } else if f > t {
                let mut msg = "from month (".to_string();
                msg.append(i128_to_string(f as i128).as_str());
                push_str(&mut msg, ") must be <= to month (");
                msg.append(i128_to_string(t as i128).as_str());
                push_str(&mut msg, ")");
                Err(CliError::Validation(msg))
            } else {
                Ok((f, t))
            }
        },
    }
}

/// The currency a report or listing is shown in: the one `code` names
/// when it names a built-in currency, else US dollars.
pub open spec fn currency_or_usd_of(first: Option<Seq<char>>) -> Currency {
    match first {
        Some(code) => match currency_named(code) {
            Some(c) => c,
            None => Currency::USD,
        },
        None => Currency::USD,
    }
}

/// Picks the currency a report is shown in from a currency code (the
/// company's most used one, or that of a listing's first row).
pub fn currency_or_usd(first: Option<&str>) -> (c: Currency)
    ensures
        c == currency_or_usd_of(match first {
            Some(s) => Some(s@),
            None => None,
        }),
{
    match first {
        Some(code) => match Currency::from_code(code) {
            Ok(c) => c,
            Err(_) => Currency::USD,
        },
        None => Currency::USD,
    }
}

} // verus!
