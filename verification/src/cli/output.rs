//! Rendering of command results as tables, CSV and JSON.
use vstd::prelude::*;
use crate::cli::output::table::{account_balance_lines, amount_text, AccountBalanceParams};
use crate::text::{ascii_lower_seq, clamp_i64};
use crate::types::account_type::{account_type_name, normal_side, AccountType};
use crate::types::debit_credit::DebitOrCredit;

pub mod csv;
pub mod json;
pub mod table;

verus! {

/// The normal-balance side of a lowercase account type: `debit` for
/// assets and expenses, `credit` for liabilities, equity and revenue,
/// `unknown` otherwise.
pub open spec fn normal_balance_text(account_type: Seq<char>) -> Seq<char> {
    if account_type == "asset"@ || account_type == "expense"@ {
        "debit"@
    } else if account_type == "liability"@ || account_type == "equity"@ || account_type
        == "revenue"@ {
        "credit"@
    } else {
        "unknown"@
    }
}

/// The text of an optional string: the string, or nothing.
pub open spec fn opt_text(o: Option<String>) -> Seq<char> {
    match o {
        Some(s) => s@,
        None => Seq::empty(),
    }
}

/// Whether to colour output: not with `--no-color`, not when `NO_COLOR`
/// is set, not for `TERM=dumb`, and only when standard output is a
/// terminal.
pub fn color_decision(no_color_flag: bool, no_color_env: bool, term_dumb: bool, stdout_tty: bool) -> (b: bool)
    ensures
        b == (!no_color_flag && !no_color_env && !term_dumb && stdout_tty),
{
    if no_color_flag || no_color_env || term_dumb {
        false
    } else {
        stdout_tty
    }
}

/// The account types as stored, in lowercase.
proof fn lemma_stored_type_names()
    ensures
        ascii_lower_seq(account_type_name(AccountType::Asset)) == "asset"@,
        ascii_lower_seq(account_type_name(AccountType::Liability)) == "liability"@,
        ascii_lower_seq(account_type_name(AccountType::Equity)) == "equity"@,
        ascii_lower_seq(account_type_name(AccountType::Revenue)) == "revenue"@,
        ascii_lower_seq(account_type_name(AccountType::Expense)) == "expense"@,
        "asset"@ != "expense"@ && "asset"@ != "liability"@ && "asset"@ != "equity"@ && "asset"@
            != "revenue"@,
        "expense"@ != "liability"@ && "expense"@ != "equity"@ && "expense"@ != "revenue"@,
{
    reveal_strlit("Asset");
    reveal_strlit("Liability");
    reveal_strlit("Equity");
    reveal_strlit("Revenue");
    reveal_strlit("Expense");
    reveal_strlit("asset");
    reveal_strlit("liability");
    reveal_strlit("equity");
    reveal_strlit("revenue");
    reveal_strlit("expense");
    assert(ascii_lower_seq("Asset"@) =~= "asset"@);
    assert(ascii_lower_seq("Liability"@) =~= "liability"@);
    assert(ascii_lower_seq("Equity"@) =~= "equity"@);
    assert(ascii_lower_seq("Revenue"@) =~= "revenue"@);
    assert(ascii_lower_seq("Expense"@) =~= "expense"@);
    assert("asset"@[0] != "expense"@[0]);
    assert("asset"@.len() != "liability"@.len());
    assert("asset"@[0] != "equity"@[0]);
    assert("asset"@[0] != "revenue"@[0]);
    assert("expense"@.len() != "liability"@.len());
    assert("expense"@.len() != "equity"@.len());
    assert("expense"@[0] != "revenue"@[0]);
}

/// An account's balance is shown on its normal side: debits less credits
/// for a debit-normal type (asset, expense), credits less debits for a
/// credit-normal one, and its normal side is named so (also in CSV and
/// JSON output), for every account type as stored (in lowercase).
pub proof fn lemma_balance_on_normal_side(p: AccountBalanceParams, t: AccountType)
    requires
        p.account_type@ == ascii_lower_seq(account_type_name(t)),
    ensures
        account_balance_lines(p)[8] == "  Balance: "@ + amount_text(
            if normal_side(t) == DebitOrCredit::Debit {
                clamp_i64(p.debit_total - p.credit_total)
            } else {
                clamp_i64(p.credit_total - p.debit_total)
            },
            p.currency_minor_units as nat,
        ) + " "@ + p.currency_code@,
        account_balance_lines(p)[4] == "  Normal:  "@ + if normal_side(t) == DebitOrCredit::Debit {
            "Debit"@
        } else {
            "Credit"@
        },
        normal_balance_text(p.account_type@) == if normal_side(t)
            == DebitOrCredit::Debit {
            "debit"@
        } else {
            "credit"@
        },
{
    lemma_stored_type_names();
}

} // verus!
