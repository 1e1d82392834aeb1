//! Trial balances: every account with its debit and credit totals.
use vstd::prelude::*;
use core::ops::Add;
use crate::types::account_type::AccountType;
use crate::types::amount::{clamp_i128, Amount};
use crate::text::int_decimal;
use super::account_balance::{balance_text, AccountBalance, AccountBalanceView};

verus! {

broadcast use crate::types::amount::lemma_amount_ext, crate::types::amount::lemma_amount_range;

/// Adding up `vs` in order, clamping each running total into `i128`.
pub open spec fn saturating_sum(vs: Seq<int>) -> int
    decreases vs.len(),
{
    if vs.len() == 0 {
        0
    } else {
        clamp_i128(saturating_sum(vs.drop_last()) + vs.last())
    }
}

/// The plain sum of `vs`.
pub open spec fn sum(vs: Seq<int>) -> int
    decreases vs.len(),
{
    if vs.len() == 0 {
        0
    } else {
        sum(vs.drop_last()) + vs.last()
    }
}

/// For non-negative values, the clamped running total is the sum capped
/// at `i128::MAX`.
pub proof fn lemma_saturating_sum_nonneg(vs: Seq<int>)
    requires
        forall|i: int| 0 <= i < vs.len() ==> 0 <= #[trigger] vs[i] <= i128::MAX,
    ensures
        saturating_sum(vs) == (if sum(vs) > i128::MAX {
            i128::MAX as int
        } else {
            sum(vs)
        }),
        sum(vs) >= 0,
    decreases vs.len(),
{
    if vs.len() > 0 {
        let p = vs.drop_last();
        assert forall|i: int| 0 <= i < p.len() implies 0 <= #[trigger] p[i] <= i128::MAX by {
            assert(p[i] == vs[i]);
        }
        lemma_saturating_sum_nonneg(p);
        assert(vs.last() == vs[vs.len() - 1]);
    }
}

/// The debit totals of a sequence of balances.
pub open spec fn debit_column(bs: Seq<AccountBalanceView>) -> Seq<int> {
    bs.map_values(|b: AccountBalanceView| b.debit)
}

/// The credit totals of a sequence of balances.
pub open spec fn credit_column(bs: Seq<AccountBalanceView>) -> Seq<int> {
    bs.map_values(|b: AccountBalanceView| b.credit)
}

/// The balances whose account has type `t`, in order.
pub open spec fn balances_of_type(bs: Seq<AccountBalanceView>, t: AccountType) -> Seq<AccountBalanceView>
    decreases bs.len(),
{
    if bs.len() == 0 {
        Seq::empty()
    } else {
        let prev = balances_of_type(bs.drop_last(), t);
        if bs.last().account.kind == t {
            prev.push(bs.last())
        } else {
            prev
        }
    }
}

/// The views of a sequence of balances.
pub open spec fn balance_views(bs: Seq<AccountBalance>) -> Seq<AccountBalanceView> {
    bs.map_values(|b: AccountBalance| b@)
}

/// A trial balance: every account with its debit and credit totals. It is
/// balanced when total debits equal total credits.
/// A rule of fifty dashes and a newline.
pub open spec fn rule_line() -> Seq<char> {
    Seq::new(50, |i: int| '-').push('\n')
}

/// One indented display line per account balance.
pub open spec fn balance_lines(bs: Seq<AccountBalanceView>) -> Seq<char>
    decreases bs.len(),
{
    if bs.len() == 0 {
        Seq::empty()
    } else {
        balance_lines(bs.drop_last()) + "  "@ + balance_text(bs.last()) + "\n"@
    }
}

#[derive(Debug)]
pub struct TrialBalance {
    balances: Vec<AccountBalance>,
}

impl View for TrialBalance {
    type V = Seq<AccountBalanceView>;

    closed spec fn view(&self) -> Seq<AccountBalanceView> {
        balance_views(self.balances@)
    }
}

impl TrialBalance {
    /// Creates a new trial balance from a list of account balances.
    pub fn new(balances: Vec<AccountBalance>) -> (t: TrialBalance)
        ensures
            t@ == balance_views(balances@),
    {
        TrialBalance { balances }
    }

    /// Returns all account balances.
    pub fn balances(&self) -> (bs: &[AccountBalance])
        ensures
            balance_views(bs@) == self@,
    {
        self.balances.as_slice()
    }

    /// Total of the debit balances (saturating at the bounds of `i128`).
    pub fn total_debits(&self) -> (a: Amount)
        ensures
            a@ == saturating_sum(debit_column(self@)),
    {
        self.column_total(true)
    }

    /// Total of the credit balances (saturating at the bounds of `i128`).
    pub fn total_credits(&self) -> (a: Amount)
        ensures
            a@ == saturating_sum(credit_column(self@)),
    {
        self.column_total(false)
    }

    fn column_total(&self, debits: bool) -> (a: Amount)
        ensures
            a@ == saturating_sum(if debits {
                debit_column(self@)
            } else {
                credit_column(self@)
            }),
    {
        let ghost col = if debits {
            debit_column(self@)
        } else {
            credit_column(self@)
        };
        let mut total = Amount::zero();
        let mut i: usize = 0;
        while i < self.balances.len()
            invariant
                i <= self.balances@.len(),
                col.len() == self.balances@.len(),
                col == (if debits {
                    debit_column(balance_views(self.balances@))
                } else {
                    credit_column(balance_views(self.balances@))
                }),
                total@ == saturating_sum(col.subrange(0, i as int)),
            decreases self.balances@.len() - i,
        {
            assert(col.subrange(0, i + 1).drop_last() =~= col.subrange(0, i as int));
            let v = if debits {
                self.balances[i].debit_total()
            } else {
                self.balances[i].credit_total()
            };
            total = Add::add(total, v);
            i = i + 1;
        }
        assert(col.subrange(0, i as int) =~= col);
        total
    }

    /// Returns `true` if total debits equal total credits.
    pub fn is_balanced(&self) -> (b: bool)
        ensures
            b == (saturating_sum(debit_column(self@)) == saturating_sum(credit_column(self@))),
    {
        self.total_debits() == self.total_credits()
    }

    /// Returns the account balances whose account has the given type.
    /// The display form: a `Trial Balance` heading, a rule, one line per
    /// account, a rule, the totals and the balance status.
    pub fn to_string(&self) -> (s: String)
        ensures
            s@ == "Trial Balance\n"@ + rule_line() + balance_lines(self@) + rule_line() + "  Totals: DR "@
                + int_decimal(saturating_sum(debit_column(self@))) + " / CR "@ + int_decimal(
                saturating_sum(credit_column(self@)),
            ) + "\n"@ + if saturating_sum(debit_column(self@)) == saturating_sum(
                credit_column(self@),
            ) {
                "  Status: BALANCED\n"@
            } else {
                "  Status: UNBALANCED\n"@
            },
    {
        let ghost bs = self@;
        let mut s = "Trial Balance\n".to_string();
        s.append("--------------------------------------------------\n");
        let ghost head = s@;
        proof {
            reveal_strlit("--------------------------------------------------\n");
            assert("--------------------------------------------------\n"@ =~= rule_line());
        }
        let mut i: usize = 0;
        assert(bs.subrange(0, 0) =~= Seq::<AccountBalanceView>::empty());
        while i < self.balances.len()
            invariant
                i <= self.balances@.len(),
                bs == balance_views(self.balances@),
                s@ == head + balance_lines(bs.subrange(0, i as int)),
            decreases self.balances@.len() - i,
        {
            assert(bs.subrange(0, i + 1).drop_last() =~= bs.subrange(0, i as int));
            assert(bs.subrange(0, i + 1).last() == self.balances@[i as int]@);
            s.append("  ");
            let line = self.balances[i].to_string();
            s.append(line.as_str());
            s.append("\n");
            i = i + 1;
        }
        assert(bs.subrange(0, i as int) =~= bs);
        s.append("--------------------------------------------------\n");
        s.append("  Totals: DR ");
        let d = self.total_debits();
        let dt = d.to_string();
        s.append(dt.as_str());
        s.append(" / CR ");
        let c = self.total_credits();
        let ct = c.to_string();
        s.append(ct.as_str());
        s.append("\n");
        if d == c {
            s.append("  Status: BALANCED\n");
        } else {
            s.append("  Status: UNBALANCED\n");
        }
        s
    }

    pub fn accounts_by_type(&self, account_type: AccountType) -> (r: Vec<&AccountBalance>)
        ensures
            r@.map_values(|b: &AccountBalance| b@) == balances_of_type(self@, account_type),
    {
        let mut r: Vec<&AccountBalance> = Vec::new();
        let mut i: usize = 0;
        while i < self.balances.len()
            invariant
                i <= self.balances@.len(),
                r@.map_values(|b: &AccountBalance| b@) == balances_of_type(
                    balance_views(self.balances@).subrange(0, i as int),
                    account_type,
                ),
            decreases self.balances@.len() - i,
        {
            let b = &self.balances[i];
            assert(balance_views(self.balances@).subrange(0, i + 1).drop_last() =~= balance_views(
                self.balances@,
            ).subrange(0, i as int));
            if b.account().account_type() == account_type {
                r.push(b);
            }
            i = i + 1;
            assert(r@.map_values(|b: &AccountBalance| b@) =~= balances_of_type(
                balance_views(self.balances@).subrange(0, i as int),
                account_type,
            ));
        }
        assert(balance_views(self.balances@).subrange(0, i as int) =~= balance_views(self.balances@));
        r
    }
}

} // verus!
