//! Accounts: conversion of a stored row to a library account.
use vstd::prelude::*;
use crate::cli::error::CliError;
use crate::types::account::Account;
use crate::types::account_code::{account_code_error_text, code_error, is_valid_code, AccountCode};
use crate::types::account_type::{account_type_error_text, account_type_from_text, AccountType};
use super::AccountRow;
use crate::text::{lowercase_text, str_eq, to_lowercase};

verus! {

/// Filters for listing accounts.
pub struct ListAccountParams<'a> {
    /// The company whose accounts are listed.
    pub company_slug: &'a str,
    /// Only accounts of this type.
    pub type_filter: Option<&'a str>,
    /// Only accounts whose name contains this text.
    pub name_filter: Option<&'a str>,
}

/// Appends `s` to `out`.
fn push_str(out: &mut String, s: &str)
    ensures
        final(out)@ == old(out)@ + s@,
{
    out.append(s);
}

/// Converts an [`AccountRow`] to a library [`Account`], parsing its code and
/// type; a validation error names the field that does not parse.
pub fn row_to_account(row: &AccountRow) -> (r: Result<Account, CliError>)
    ensures
        !is_valid_code(row.code@) ==> (r matches Err(CliError::Validation(m)) && m@
            == "invalid account code '"@ + row.code@ + "': "@ + account_code_error_text(
            code_error(row.code@),
        )),
        is_valid_code(row.code@) ==> match account_type_from_text(row.account_type@) {
                None => r matches Err(CliError::Validation(m)) && m@ == "invalid account type '"@
                    + row.account_type@ + "': "@ + account_type_error_text(
                    crate::types::account_type::AccountTypeError::InvalidName {
                        value: row.account_type,
                    },
                ),
                Some(t) => r matches Ok(a) && a@.code == row.code@ && a@.name == row.name@ && a@.kind
                    == t,
            },
{
    let code = match AccountCode::new(row.code.as_str()) {
        Ok(c) => c,
        Err(e) => {
            let mut m = "invalid account code '".to_string();
            push_str(&mut m, row.code.as_str());
            push_str(&mut m, "': ");
            let t = e.to_string();
            push_str(&mut m, t.as_str());
            return Err(CliError::Validation(m));
        },
    };
    let account_type = match AccountType::parse(row.account_type.as_str()) {
        Ok(t) => t,
        Err(e) => {
            let mut m = "invalid account type '".to_string();
            push_str(&mut m, row.account_type.as_str());
            push_str(&mut m, "': ");
            let t = e.to_string();
            push_str(&mut m, t.as_str());
            return Err(CliError::Validation(m));
        },
    };
    Ok(Account::new(code, row.name.as_str(), account_type))
}

/// Whether a lowercase text names one of the five account types.
pub open spec fn is_account_type_name(s: Seq<char>) -> bool {
    s == "asset"@ || s == "liability"@ || s == "equity"@ || s == "revenue"@ || s == "expense"@
}

/// Checks the type of a new account: its lowercase form must name one of
/// the five account types, and is what is stored.
pub fn validate_account_type(account_type: &str) -> (r: Result<String, CliError>)
    ensures
        is_account_type_name(lowercase_text(account_type@)) ==> (r matches Ok(t) && t@
            == lowercase_text(account_type@)),
        !is_account_type_name(lowercase_text(account_type@)) ==> (r matches Err(
            CliError::Validation(m),
        ) && m@ == "invalid account type '"@ + account_type@
            + "'; expected one of: asset, liability, equity, revenue, expense"@),
{
    let lower = to_lowercase(account_type);
    let l = lower.as_str();
    if str_eq(l, "asset") || str_eq(l, "liability") || str_eq(l, "equity") || str_eq(l, "revenue")
        || str_eq(l, "expense") {
        return Ok(lower);
    }
    let mut m = "invalid account type '".to_string();
    push_str(&mut m, account_type);
    push_str(&mut m, "'; expected one of: asset, liability, equity, revenue, expense");
    Err(CliError::Validation(m))
}

} // verus!
