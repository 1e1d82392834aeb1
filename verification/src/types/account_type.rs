//! The five fundamental account types.
use vstd::prelude::*;
use crate::text::str_eq;
use super::debit_credit::{opposite_of, DebitOrCredit};

verus! {

/// Error type for parsing [`AccountType`] from a string.
#[derive(Debug, Clone, PartialEq, Eq)]
#[non_exhaustive]
pub enum AccountTypeError {
    /// The provided string does not match any account type name.
    InvalidName { value: String },
}

/// The message of an account type error.
pub open spec fn account_type_error_text(e: AccountTypeError) -> Seq<char> {
    match e {
        AccountTypeError::InvalidName { value } => "invalid account type: \""@ + value@
            + "\" (expected Asset, Liability, Equity, Revenue, or Expense)"@,
    }
}

impl AccountTypeError {
    /// The human-readable message for this error.
    pub fn to_string(&self) -> (s: String)
        ensures
            s@ == account_type_error_text(*self),
    {
        match self {
            AccountTypeError::InvalidName { value } => {
                let mut s = "invalid account type: \"".to_string();
                s.append(value.as_str());
                s.append("\" (expected Asset, Liability, Equity, Revenue, or Expense)");
                s
            },
        }
    }
}

/// The five fundamental account types in double-entry bookkeeping.
///
/// Assets + Expenses (debit normal) = Liabilities + Equity + Revenue
/// (credit normal).
#[derive(Debug, Clone, Copy, PartialEq, Eq, Structural, Hash)]
#[non_exhaustive]
pub enum AccountType {
    /// Resources owned. Normal balance: Debit.
    Asset,
    /// Obligations owed. Normal balance: Credit.
    Liability,
    /// Owner's residual interest. Normal balance: Credit.
    Equity,
    /// Income earned. Normal balance: Credit.
    Revenue,
    /// Costs incurred. Normal balance: Debit.
    Expense,
}

/// The normal balance side of an account type.
pub open spec fn normal_side(t: AccountType) -> DebitOrCredit {
    match t {
        AccountType::Asset | AccountType::Expense => DebitOrCredit::Debit,
        _ => DebitOrCredit::Credit,
    }
}

/// The account type a text names, if any.
pub open spec fn account_type_from_text(s: Seq<char>) -> Option<AccountType> {
    if s == "Asset"@ || s == "asset"@ {
        Some(AccountType::Asset)
    } else if s == "Liability"@ || s == "liability"@ {
        Some(AccountType::Liability)
    } else if s == "Equity"@ || s == "equity"@ {
        Some(AccountType::Equity)
    } else if s == "Revenue"@ || s == "revenue"@ {
        Some(AccountType::Revenue)
    } else if s == "Expense"@ || s == "expense"@ {
        Some(AccountType::Expense)
    } else {
        None
    }
}

/// The display name of an account type.
pub open spec fn account_type_name(t: AccountType) -> Seq<char> {
    match t {
        AccountType::Asset => "Asset"@,
        AccountType::Liability => "Liability"@,
        AccountType::Equity => "Equity"@,
        AccountType::Revenue => "Revenue"@,
        AccountType::Expense => "Expense"@,
    }
}

impl AccountType {
    /// Returns the normal balance direction for this account type.
    pub fn normal_balance(self) -> (d: DebitOrCredit)
        ensures
            d == normal_side(self),
    {
        match self {
            AccountType::Asset | AccountType::Expense => DebitOrCredit::Debit,
            _ => DebitOrCredit::Credit,
        }
    }

    /// Returns `true` if this account type has a debit normal balance.
    pub fn is_debit_normal(self) -> (b: bool)
        ensures
            b == (normal_side(self) == DebitOrCredit::Debit),
    {
        self.normal_balance().is_debit()
    }

    /// Returns `true` if this account type has a credit normal balance.
    pub fn is_credit_normal(self) -> (b: bool)
        ensures
            b == (normal_side(self) == DebitOrCredit::Credit),
    {
        self.normal_balance().is_credit()
    }

    /// Returns the direction that increases this account type's balance.
    pub fn increases_with(self) -> (d: DebitOrCredit)
        ensures
            d == normal_side(self),
    {
        self.normal_balance()
    }

    /// Returns the direction that decreases this account type's balance.
    pub fn decreases_with(self) -> (d: DebitOrCredit)
        ensures
            d == opposite_of(normal_side(self)),
    {
        self.normal_balance().opposite()
    }

    /// Returns `true` for balance sheet accounts (Asset, Liability, Equity).
    pub fn is_balance_sheet(self) -> (b: bool)
        ensures
            b == (self == AccountType::Asset || self == AccountType::Liability || self
                == AccountType::Equity),
    {
        matches!(self, AccountType::Asset | AccountType::Liability | AccountType::Equity)
    }

    /// Returns `true` for income statement accounts (Revenue, Expense).
    pub fn is_income_statement(self) -> (b: bool)
        ensures
            b == (self == AccountType::Revenue || self == AccountType::Expense),
    {
        matches!(self, AccountType::Revenue | AccountType::Expense)
    }

    /// The display name, e.g. `"Asset"`.
    pub fn to_string(&self) -> (s: String)
        ensures
            s@ == account_type_name(*self),
    {
        match self {
            AccountType::Asset => "Asset".to_string(),
            AccountType::Liability => "Liability".to_string(),
            AccountType::Equity => "Equity".to_string(),
            AccountType::Revenue => "Revenue".to_string(),
            AccountType::Expense => "Expense".to_string(),
        }
    }

    /// Parses a capitalised or lowercase account type name.
    pub fn parse(s: &str) -> (r: Result<AccountType, AccountTypeError>)
        ensures
            account_type_from_text(s@) matches Some(t) ==> r == Ok::<AccountType, AccountTypeError>(
                t,
            ),
            account_type_from_text(s@) is None ==> (r matches Err(AccountTypeError::InvalidName { value })
                && value@ == s@),
    {
        if str_eq(s, "Asset") || str_eq(s, "asset") {
            Ok(AccountType::Asset)
        } else if str_eq(s, "Liability") || str_eq(s, "liability") {
            Ok(AccountType::Liability)
        } else if str_eq(s, "Equity") || str_eq(s, "equity") {
            Ok(AccountType::Equity)
        } else if str_eq(s, "Revenue") || str_eq(s, "revenue") {
            Ok(AccountType::Revenue)
        } else if str_eq(s, "Expense") || str_eq(s, "expense") {
            Ok(AccountType::Expense)
        } else {
            Err(AccountTypeError::InvalidName { value: s.to_owned() })
        }
    }
}

impl core::str::FromStr for AccountType {
    type Err = AccountTypeError;

    fn from_str(s: &str) -> (r: Result<AccountType, AccountTypeError>)
        ensures
            account_type_from_text(s@) matches Some(t) ==> r == Ok::<AccountType, AccountTypeError>(
                t,
            ),
            account_type_from_text(s@) is None ==> (r matches Err(AccountTypeError::InvalidName { value })
                && value@ == s@),
    {
        AccountType::parse(s)
    }
}

} // verus!
