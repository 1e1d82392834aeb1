//! The pure steps of `bk budget`: reading the arguments of `budget set`
//! and the messages of the budget subcommands.
use vstd::prelude::*;
use crate::cli::commands::txn::{amount_reading, is_cli_error, parse_amount_to_minor};
use crate::cli::db::budgets::{month_text, push_month};
use crate::cli::error::CliError;
use crate::text::{i128_to_string, int_decimal};
use crate::types::currency::{currency_code_text, currency_named, Currency};

verus! {

/// What `budget set` stores once its arguments are read.
#[derive(Debug, Clone, Copy, PartialEq, Eq, Structural)]
pub enum BudgetSetPlan {
    /// Spread an annual amount, in minor units, over the twelve months.
    Annual { annual_minor: i64 },
    /// Set one month's amount, in minor units.
    Monthly { month: i32, amount_minor: i64 },
}

/// How the amount text `s` reads in currency `c`, as the result of
/// `budget set`: the plan `plan(v)` for a value `v`, or the parse error.
pub open spec fn reads_as(
    r: Result<(Currency, BudgetSetPlan), CliError>,
    c: Currency,
    s: Seq<char>,
    plan: spec_fn(i64) -> BudgetSetPlan,
) -> bool {
    match amount_reading(s, currency_code_text(c), c.spec_minor_units() as nat) {
        Ok(v) => r == Ok::<(Currency, BudgetSetPlan), CliError>((c, plan(v as i64))),
        Err((usage, msg)) => r matches Err(e) && is_cli_error(e, usage, msg),
    }
}

/// The built-in currencies have at most three decimal places.
proof fn lemma_named_minor_units(s: Seq<char>)
    requires
        currency_named(s) is Some,
    ensures
        currency_named(s)->0.spec_minor_units() <= 3,
{
}

/// Reads the arguments of `budget set`: the currency code, then either an
/// annual amount (which wins when both are given) or a month's amount with
/// its month.
pub fn plan_budget_set(
    month: Option<i32>,
    amount: Option<&str>,
    annual: Option<&str>,
    currency_code: &str,
) -> (r: Result<(Currency, BudgetSetPlan), CliError>)
    ensures
        currency_named(currency_code@) is None ==> (r matches Err(CliError::Validation(m)) && m@
            == "unknown currency: "@ + currency_code@),
        currency_named(currency_code@) matches Some(c) ==> match (annual, amount) {
            (Some(a), _) => reads_as(
                r,
                c,
                a@,
                |v: i64| BudgetSetPlan::Annual { annual_minor: v },
            ),
            (None, Some(s)) => match month {
                None => r matches Err(CliError::Usage(m)) && m@
                    == "--month is required when using --amount"@,
                Some(mo) => if 1 <= mo <= 12 {
                    reads_as(r, c, s@, |v: i64| BudgetSetPlan::Monthly { month: mo, amount_minor: v })
                } else {
                    r matches Err(CliError::Validation(m)) && m@ == "month must be 1-12, got "@
                        + int_decimal(mo as int)
                },
            },
            (None, None) => r matches Err(CliError::Usage(m)) && m@
                == "either --month/--amount or --annual must be provided"@,
        },
{
    let currency = match Currency::from_code(currency_code) {
        Ok(c) => c,
        Err(_) => {
            let mut m = "unknown currency: ".to_string();
            m.append(currency_code);
            return Err(CliError::Validation(m));
        },
    };
    proof {
        lemma_named_minor_units(currency_code@);
    }
    if let Some(annual_str) = annual {
        let v = parse_amount_to_minor(annual_str, currency)?;
        return Ok((currency, BudgetSetPlan::Annual { annual_minor: v }));
    }
    if let Some(amount_str) = amount {
        let m = match month {
            Some(m) => m,
            None => {
                return Err(CliError::Usage("--month is required when using --amount".to_string()));
            },
        };
        if !(1 <= m && m <= 12) {
            let mut t = "month must be 1-12, got ".to_string();
            let n = i128_to_string(m as i128);
            t.append(n.as_str());
            return Err(CliError::Validation(t));
        }
        let v = parse_amount_to_minor(amount_str, currency)?;
        return Ok((currency, BudgetSetPlan::Monthly { month: m, amount_minor: v }));
    }
    Err(CliError::Usage("either --month/--amount or --annual must be provided".to_string()))
}

/// The confirmation printed once `budget set` has stored its plan.
pub open spec fn budget_set_message_text(account: Seq<char>, year: int, plan: BudgetSetPlan) -> Seq<char> {
    match plan {
        BudgetSetPlan::Annual { .. } => "[ok] annual budget set for "@ + account + " in "@
            + int_decimal(year) + " (12 months)"@,
        BudgetSetPlan::Monthly { month, .. } => "[ok] budget set for "@ + account + " in "@
            + int_decimal(year) + "-"@ + month_text(month as int),
    }
}

/// The confirmation of `budget set`.
pub fn budget_set_message(account: &str, year: i32, plan: BudgetSetPlan) -> (s: String)
    ensures
        s@ == budget_set_message_text(account@, year as int, plan),
{
    let y = i128_to_string(year as i128);
    match plan {
        BudgetSetPlan::Annual { .. } => {
            let mut s = "[ok] annual budget set for ".to_string();
            s.append(account);
            s.append(" in ");
            s.append(y.as_str());
            s.append(" (12 months)");
            s
        },
        BudgetSetPlan::Monthly { month, .. } => {
            let mut s = "[ok] budget set for ".to_string();
            s.append(account);
            s.append(" in ");
            s.append(y.as_str());
            s.append("-");
            push_month(&mut s, month);
            s
        },
    }
}

/// What a `budget delete` removes, as its confirmation prompt names it.
pub open spec fn delete_scope_text(account: Seq<char>, year: int, month: Option<i32>) -> Seq<char> {
    match month {
        Some(m) => account + " for "@ + int_decimal(year) + "-"@ + month_text(m as int),
        None => account + " for all of "@ + int_decimal(year),
    }
}

/// Names what a `budget delete` removes: one month, or the whole year.
pub fn delete_scope(account: &str, year: i32, month: Option<i32>) -> (s: String)
    ensures
        s@ == delete_scope_text(account@, year as int, month),
{
    let y = i128_to_string(year as i128);
    let mut s = account.to_string();
    match month {
        Some(m) => {
            s.append(" for ");
            s.append(y.as_str());
            s.append("-");
            push_month(&mut s, m);
        },
        None => {
            s.append(" for all of ");
            s.append(y.as_str());
        },
    }
    s
}

} // verus!
