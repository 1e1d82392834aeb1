use beankeeper::cli::commands::budget::{
    budget_set_message, delete_scope, plan_budget_set, BudgetSetPlan,
};
use beankeeper::cli::commands::report::currency_or_usd;
use beankeeper::cli::error::CliError;
use beankeeper::types::Currency;

#[test]
fn annual_budget_is_read_in_minor_units() {
    let (c, plan) = plan_budget_set(None, None, Some("1200"), "USD").unwrap();
    assert_eq!(c, Currency::USD);
    assert_eq!(plan, BudgetSetPlan::Annual { annual_minor: 120_000 });
}

#[test]
fn annual_wins_over_monthly_amount() {
    let (_, plan) = plan_budget_set(Some(3), Some("10"), Some("12"), "JPY").unwrap();
    assert_eq!(plan, BudgetSetPlan::Annual { annual_minor: 12 });
}

#[test]
fn monthly_budget_needs_a_month_in_range() {
    let (_, plan) = plan_budget_set(Some(4), Some("2.50"), None, "EUR").unwrap();
    assert_eq!(plan, BudgetSetPlan::Monthly { month: 4, amount_minor: 250 });

    match plan_budget_set(None, Some("2.50"), None, "EUR") {
        Err(CliError::Usage(m)) => assert_eq!(m, "--month is required when using --amount"),
        other => panic!("unexpected: {other:?}"),
    }
    match plan_budget_set(Some(13), Some("2.50"), None, "EUR") {
        Err(CliError::Validation(m)) => assert_eq!(m, "month must be 1-12, got 13"),
        other => panic!("unexpected: {other:?}"),
    }
}

#[test]
fn budget_set_rejects_unknown_currency_and_missing_amounts() {
    match plan_budget_set(Some(1), Some("1"), None, "XYZ") {
        Err(CliError::Validation(m)) => assert_eq!(m, "unknown currency: XYZ"),
        other => panic!("unexpected: {other:?}"),
    }
    match plan_budget_set(Some(1), None, None, "USD") {
        Err(CliError::Usage(m)) => {
            assert_eq!(m, "either --month/--amount or --annual must be provided")
        }
        other => panic!("unexpected: {other:?}"),
    }
    match plan_budget_set(None, None, Some("1.234"), "USD") {
        Err(CliError::Validation(m)) => {
            assert_eq!(m, "amount '1.234' has too many decimal places for USD (max 2)")
        }
        other => panic!("unexpected: {other:?}"),
    }
}

#[test]
fn budget_messages() {
    assert_eq!(
        budget_set_message("6100", 2025, BudgetSetPlan::Annual { annual_minor: 1 }),
        "[ok] annual budget set for 6100 in 2025 (12 months)"
    );
    assert_eq!(
        budget_set_message("6100", 2025, BudgetSetPlan::Monthly { month: 3, amount_minor: 1 }),
        "[ok] budget set for 6100 in 2025-03"
    );
    assert_eq!(delete_scope("6100", 2025, Some(11)), "6100 for 2025-11");
    assert_eq!(delete_scope("6100", 2025, None), "6100 for all of 2025");
}

#[test]
fn report_currency_falls_back_to_usd() {
    assert_eq!(currency_or_usd(Some("JPY")), Currency::JPY);
    assert_eq!(currency_or_usd(Some("zzz")), Currency::USD);
    assert_eq!(currency_or_usd(None), Currency::USD);
}
