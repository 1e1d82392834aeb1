//! The debit and credit totals of one account.
use vstd::prelude::*;
use core::ops::Sub;
use crate::types::account::{Account, AccountView};
use crate::types::account_type::normal_side;
use crate::types::amount::{clamp_i128, Amount};
use crate::types::debit_credit::DebitOrCredit;
use crate::text::int_decimal;

verus! {

broadcast use crate::types::amount::lemma_amount_ext, crate::types::amount::lemma_amount_range;

/// The mathematical content of an account balance.
pub struct AccountBalanceView {
    /// The account.
    pub account: AccountView,
    /// Total of the debit entries.
    pub debit: int,
    /// Total of the credit entries.
    pub credit: int,
}

/// The computed balance for a single account: its debit and credit totals.
/// The display text of an account balance, e.g.
/// `1000 - Cash (Asset): DR 500 / CR 0`.
pub open spec fn balance_text(b: AccountBalanceView) -> Seq<char> {
    b.account.code + " - "@ + b.account.name + " ("@ + crate::types::account_type::account_type_name(
        b.account.kind,
    ) + ")"@ + ": DR "@ + int_decimal(b.debit) + " / CR "@ + int_decimal(b.credit)
}

#[derive(Debug)]
pub struct AccountBalance {
    account: Account,
    debit_total: Amount,
    credit_total: Amount,
}

impl View for AccountBalance {
    type V = AccountBalanceView;

    closed spec fn view(&self) -> AccountBalanceView {
        AccountBalanceView { account: self.account@, debit: self.debit_total@, credit: self.credit_total@ }
    }
}

impl AccountBalance {
    /// Creates a new account balance.
    pub fn new(account: Account, debit_total: Amount, credit_total: Amount) -> (b: AccountBalance)
        ensures
            b@ == (AccountBalanceView { account: account@, debit: debit_total@, credit: credit_total@ }),
    {
        AccountBalance { account, debit_total, credit_total }
    }

    /// Returns the account.
    pub fn account(&self) -> (a: &Account)
        ensures
            a@ == self@.account,
    {
        &self.account
    }

    /// Returns the total of all debit entries.
    pub fn debit_total(&self) -> (a: Amount)
        ensures
            a@ == self@.debit,
    {
        self.debit_total
    }

    /// Returns the total of all credit entries.
    pub fn credit_total(&self) -> (a: Amount)
        ensures
            a@ == self@.credit,
    {
        self.credit_total
    }

    /// Returns the net balance, debit total minus credit total (saturating).
    pub fn net_balance(&self) -> (a: Amount)
        ensures
            a@ == clamp_i128(self@.debit - self@.credit),
    {
        Sub::sub(self.debit_total, self.credit_total)
    }

    /// Returns the balance on the account's normal side (saturating):
    /// debits minus credits for debit-normal accounts, credits minus debits
    /// otherwise. Positive means the account is in its normal state.
    pub fn normal_balance_amount(&self) -> (a: Amount)
        ensures
            a@ == (if normal_side(self@.account.kind) == DebitOrCredit::Debit {
                clamp_i128(self@.debit - self@.credit)
            } else {
                clamp_i128(self@.credit - self@.debit)
            }),
    {
        if self.account.account_type().is_debit_normal() {
            Sub::sub(self.debit_total, self.credit_total)
        } else {
            Sub::sub(self.credit_total, self.debit_total)
        }
    }

    /// Returns `true` if both debit and credit totals are zero.
    pub fn is_zero(&self) -> (b: bool)
        ensures
            b == (self@.debit == 0 && self@.credit == 0),
    {
        self.debit_total.is_zero() && self.credit_total.is_zero()
    }

    /// The display form `"<account>: DR <debits> / CR <credits>"`.
    pub fn to_string(&self) -> (s: String)
        ensures
            s@ == balance_text(self@),
    {
        let mut s = self.account.to_string();
        s.append(": DR ");
        let d = self.debit_total.to_string();
        s.append(d.as_str());
        s.append(" / CR ");
        let c = self.credit_total.to_string();
        s.append(c.as_str());
        s
    }
}

impl Clone for AccountBalance {
    fn clone(&self) -> (r: AccountBalance)
        ensures
            r@ == self@,
    {
        AccountBalance {
            account: self.account.clone(),
            debit_total: self.debit_total,
            credit_total: self.credit_total,
        }
    }
}

impl PartialEq for AccountBalance {
    fn eq(&self, other: &AccountBalance) -> (r: bool) {
        self.account == other.account && self.debit_total == other.debit_total && self.credit_total
            == other.credit_total
    }
}

impl vstd::std_specs::cmp::PartialEqSpecImpl for AccountBalance {
    open spec fn obeys_eq_spec() -> bool {
        true
    }

    open spec fn eq_spec(&self, other: &AccountBalance) -> bool {
        self@ == other@
    }
}

impl Eq for AccountBalance {
}

} // verus!
