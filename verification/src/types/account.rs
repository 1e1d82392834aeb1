//! Named accounts in the chart of accounts.
use vstd::prelude::*;
use vstd::std_specs::cmp::PartialEqSpecImpl;
use super::account_code::AccountCode;
use super::account_type::{account_type_name, normal_side, AccountType};
use super::debit_credit::DebitOrCredit;

verus! {

/// The mathematical content of an account.
pub struct AccountView {
    /// The account code.
    pub code: Seq<char>,
    /// The account name.
    pub name: Seq<char>,
    /// The account type.
    pub kind: AccountType,
}

/// A named account with a code and a type that fixes its normal balance.
#[derive(Debug, Hash)]
pub struct Account {
    code: AccountCode,
    name: String,
    kind: AccountType,
}

impl View for Account {
    type V = AccountView;

    closed spec fn view(&self) -> AccountView {
        AccountView { code: self.code@, name: self.name@, kind: self.kind }
    }
}

impl Account {
    /// Creates a new account.
    pub fn new(code: AccountCode, name: &str, account_type: AccountType) -> (a: Account)
        ensures
            a@ == (AccountView { code: code@, name: name@, kind: account_type }),
    {
        Account { code, name: name.to_owned(), kind: account_type }
    }

    /// Returns the account code.
    pub fn code(&self) -> (c: &AccountCode)
        ensures
            c@ == self@.code,
    {
        &self.code
    }

    /// Returns the account name.
    pub fn name(&self) -> (n: &str)
        ensures
            n@ == self@.name,
    {
        self.name.as_str()
    }

    /// Returns the account type.
    pub fn account_type(&self) -> (t: AccountType)
        ensures
            t == self@.kind,
    {
        self.kind
    }

    /// Returns the normal balance direction for this account's type.
    pub fn normal_balance(&self) -> (d: DebitOrCredit)
        ensures
            d == normal_side(self@.kind),
    {
        self.kind.normal_balance()
    }

    /// The display form `"<code> - <name> (<Type>)"`.
    pub fn to_string(&self) -> (s: String)
        ensures
            s@ == self@.code + " - "@ + self@.name + " ("@ + account_type_name(self@.kind) + ")"@,
    {
        let mut s = self.code.to_string();
        s.append(" - ");
        s.append(self.name.as_str());
        s.append(" (");
        let t = self.kind.to_string();
        s.append(t.as_str());
        s.append(")");
        s
    }
}

impl Clone for Account {
    fn clone(&self) -> (r: Account)
        ensures
            r@ == self@,
    {
        Account { code: self.code.clone(), name: self.name.clone(), kind: self.kind }
    }
}

impl PartialEq for Account {
    fn eq(&self, other: &Account) -> (r: bool) {
        self.code == other.code && self.name == other.name && self.kind == other.kind
    }
}

impl PartialEqSpecImpl for Account {
    open spec fn obeys_eq_spec() -> bool {
        true
    }

    open spec fn eq_spec(&self, other: &Account) -> bool {
        self@ == other@
    }
}

impl Eq for Account {
}

} // verus!
