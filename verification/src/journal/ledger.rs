//! The general ledger: posted transactions and the balances they give.
use vstd::prelude::*;
use crate::types::account::{Account, AccountView};
use crate::types::account_code::{
    code_lt, lemma_code_lt_irreflexive, lemma_code_lt_total, lemma_code_lt_transitive,
};
use crate::types::account_code::AccountCode;
use crate::types::amount::Amount;
use crate::types::date::{date_le, date_text, Date, DateView};
use crate::text_order::{lemma_ymd_text_order, text_le};
use crate::cli::commands::import_ofx::ymd_text;
use crate::types::debit_credit::DebitOrCredit;
use crate::types::entry::{signed_value, Entry, EntryView};
use crate::types::money::MoneyError;
use crate::reporting::account_balance::{AccountBalance, AccountBalanceView};
use crate::reporting::trial_balance::{
    balance_views, credit_column, debit_column, lemma_saturating_sum_nonneg, saturating_sum, sum,
    TrialBalance,
};
use super::transaction::{
    all_positive, balanced_entries, checked_fold, entry_views, lemma_fold_none_sticky, ref_views,
    side_sum, Transaction, TransactionView,
};

verus! {

broadcast use crate::types::amount::lemma_amount_ext, crate::types::amount::lemma_amount_range;

/// Every entry of a list of transactions, in posting order.
pub open spec fn posted_entries(ts: Seq<TransactionView>) -> Seq<EntryView>
    decreases ts.len(),
{
    if ts.len() == 0 {
        Seq::empty()
    } else {
        posted_entries(ts.drop_last()) + ts.last().entries
    }
}

/// Whether a transaction falls within a cutoff: every transaction when
/// there is none, else those dated on or before it.
pub open spec fn within(t: TransactionView, cutoff: Option<DateView>) -> bool {
    match cutoff {
        None => true,
        Some(d) => date_le(t.date, d),
    }
}

/// A cutoff keeps a transaction exactly when its date, written
/// `YYYY-MM-DD`, sorts on or before the cutoff's as text, the cutoff day
/// itself included: the same dates a query bounded by that text keeps.
pub proof fn lemma_within_is_text_order(t: TransactionView, c: DateView)
    requires
        1000 <= t.date.year <= 9999,
        1000 <= c.year <= 9999,
        1 <= t.date.month <= 12,
        1 <= c.month <= 12,
        1 <= t.date.day <= 31,
        1 <= c.day <= 31,
    ensures
        within(t, Some(c)) == text_le(
            date_text(t.date.year, t.date.month, t.date.day),
            date_text(c.year, c.month, c.day),
        ),
{
    let a = t.date;
    assert(date_text(a.year, a.month, a.day) =~= ymd_text(a.year, a.month as nat, a.day as nat));
    assert(date_text(c.year, c.month, c.day) =~= ymd_text(c.year, c.month as nat, c.day as nat));
    lemma_ymd_text_order(a.year, a.month as nat, a.day as nat, c.year, c.month as nat, c.day as nat);
}

/// The transactions within a cutoff, in posting order.
pub open spec fn transactions_through(ts: Seq<TransactionView>, cutoff: Option<DateView>) -> Seq<
    TransactionView,
>
    decreases ts.len(),
{
    if ts.len() == 0 {
        Seq::empty()
    } else {
        let prev = transactions_through(ts.drop_last(), cutoff);
        if within(ts.last(), cutoff) {
            prev.push(ts.last())
        } else {
            prev
        }
    }
}

/// The entries posted to account code `code`, in order.
pub open spec fn code_entries(es: Seq<EntryView>, code: Seq<char>) -> Seq<EntryView>
    decreases es.len(),
{
    if es.len() == 0 {
        Seq::empty()
    } else {
        let prev = code_entries(es.drop_last(), code);
        if es.last().account.code == code {
            prev.push(es.last())
        } else {
            prev
        }
    }
}

/// Whether some entry is posted to account code `code`.
pub open spec fn has_code(es: Seq<EntryView>, code: Seq<char>) -> bool {
    exists|i: int| 0 <= i < es.len() && #[trigger] es[i].account.code == code
}

/// The account of the first entry posted to code `code`.
pub open spec fn first_account(es: Seq<EntryView>, code: Seq<char>) -> AccountView
    decreases es.len(),
{
    if es.len() == 0 {
        arbitrary()
    } else if has_code(es.drop_last(), code) {
        first_account(es.drop_last(), code)
    } else {
        es.last().account
    }
}

/// Whether some account in the list has code `code`.
pub open spec fn lists_code(accounts: Seq<AccountView>, code: Seq<char>) -> bool {
    exists|k: int| 0 <= k < accounts.len() && #[trigger] accounts[k].code == code
}

/// Whether `accounts` lists, in strictly increasing code order, one account
/// for each code that entries are posted to: the account of the first
/// entry posted to that code.
pub open spec fn accounts_indexed(accounts: Seq<AccountView>, es: Seq<EntryView>) -> bool {
    &&& forall|i: int, j: int|
        0 <= i < j < accounts.len() ==> code_lt(#[trigger] accounts[i].code, #[trigger] accounts[j].code)
    &&& forall|k: int|
        0 <= k < accounts.len() ==> has_code(es, #[trigger] accounts[k].code) && accounts[k]
            == first_account(es, accounts[k].code)
    &&& covers(accounts, es)
}

/// Whether every entry is posted to a code that some account has.
pub open spec fn covers(accounts: Seq<AccountView>, es: Seq<EntryView>) -> bool {
    forall|i: int| 0 <= i < es.len() ==> lists_code(accounts, #[trigger] es[i].account.code)
}

/// Whether every transaction of the list is balanced.
pub open spec fn all_balanced(ts: Seq<TransactionView>) -> bool {
    forall|i: int| 0 <= i < ts.len() ==> balanced_entries(#[trigger] ts[i].entries)
}

/// The mathematical content of a ledger.
pub struct LedgerView {
    /// The posted transactions, in posting order.
    pub transactions: Seq<TransactionView>,
    /// The accounts that entries were posted to, in code order.
    pub accounts: Seq<AccountView>,
}

/// What holds of every ledger: each transaction balances, and the account
/// list indexes the posted entries.
pub open spec fn ledger_inv(l: LedgerView) -> bool {
    &&& all_balanced(l.transactions)
    &&& accounts_indexed(l.accounts, posted_entries(l.transactions))
}

/// The views of a list of accounts.
pub open spec fn account_views(accounts: Seq<Account>) -> Seq<AccountView> {
    accounts.map_values(|a: Account| a@)
}

/// The views of a list of transactions.
pub open spec fn transaction_views(ts: Seq<Transaction>) -> Seq<TransactionView> {
    ts.map_values(|t: Transaction| t@)
}

/// Posting one more transaction appends its entries.
pub proof fn lemma_posted_push(ts: Seq<TransactionView>, t: TransactionView)
    ensures
        posted_entries(ts.push(t)) == posted_entries(ts) + t.entries,
{
    assert(ts.push(t).drop_last() =~= ts);
}

/// One more entry: how code membership and first accounts extend.
pub proof fn lemma_index_step(es: Seq<EntryView>, e: EntryView, c: Seq<char>)
    ensures
        has_code(es.push(e), c) == (has_code(es, c) || e.account.code == c),
        has_code(es, c) ==> first_account(es.push(e), c) == first_account(es, c),
        !has_code(es, c) && e.account.code == c ==> first_account(es.push(e), c) == e.account,
{
    let n = es.push(e);
    assert(n.drop_last() =~= es);
    assert(n.last() == e);
    if has_code(es, c) {
        let i = choose|i: int| 0 <= i < es.len() && #[trigger] es[i].account.code == c;
        assert(n[i] == es[i]);
    }
    if has_code(n, c) && !has_code(es, c) {
        let i = choose|i: int| 0 <= i < n.len() && #[trigger] n[i].account.code == c;
        if i < es.len() {
            assert(n[i] == es[i]);
        }
    }
    if e.account.code == c {
        assert(n[es.len() as int] == e);
    }
}

/// Records the account of entry `e` in the code-ordered account list,
/// unless its code is already there.
fn index_account(
    accounts: &mut Vec<Account>,
    account: &Account,
    Ghost(es): Ghost<Seq<EntryView>>,
    Ghost(e): Ghost<EntryView>,
)
    requires
        accounts_indexed(account_views(old(accounts)@), es),
        e.account == account@,
    ensures
        accounts_indexed(account_views(final(accounts)@), es.push(e)),
{
    let ghost v = account_views(accounts@);
    let ghost n = es.push(e);
    let code = account.code();
    let mut k: usize = 0;
    while k < accounts.len() && accounts[k].code().less_than(code)
        invariant
            k <= accounts@.len(),
            account_views(accounts@) == v,
            v.len() == accounts@.len(),
            code@ == account@.code,
            forall|i: int| 0 <= i < k ==> code_lt(#[trigger] v[i].code, code@),
        decreases accounts@.len() - k,
    {
        assert(accounts@[k as int]@ == v[k as int]);
        k = k + 1;
    }
    assert(k < v.len() ==> accounts@[k as int]@ == v[k as int]);
    assert forall|c: Seq<char>| true implies {
        &&& has_code(n, c) == (has_code(es, c) || e.account.code == c)
        &&& has_code(es, c) ==> first_account(n, c) == first_account(es, c)
        &&& !has_code(es, c) && e.account.code == c ==> first_account(n, c) == e.account
    } by {
        lemma_index_step(es, e, c);
    }
    assert(n.len() == es.len() + 1);
    assert(n[es.len() as int] == e);
    if k < accounts.len() && accounts[k].code() == code {
        assert forall|i: int| 0 <= i < n.len() implies lists_code(v, #[trigger] n[i].account.code) by {
            if i < es.len() {
                assert(n[i] == es[i]);
            } else {
                assert(v[k as int].code == n[i].account.code);
            }
        }
        assert forall|j: int| 0 <= j < v.len() implies has_code(n, #[trigger] v[j].code) && v[j]
            == first_account(n, v[j].code) by {
            assert(has_code(es, v[j].code));
        }
    } else {
        assert(!has_code(es, code@)) by {
            if has_code(es, code@) {
                let i = choose|i: int| 0 <= i < es.len() && #[trigger] es[i].account.code == code@;
                assert(lists_code(v, es[i].account.code));
                let q = choose|q: int| 0 <= q < v.len() && #[trigger] v[q].code == es[i].account.code;
                lemma_code_lt_irreflexive(code@);
                if q >= k {
                    lemma_code_lt_total(v[k as int].code, code@);
                    if q > k {
                        assert(code_lt(v[k as int].code, v[q].code));
                    }
                }
            }
        }
        let ghost w = v.insert(k as int, account@);
        proof {
            assert forall|i: int, j: int| 0 <= i < j < w.len() implies code_lt(
                #[trigger] w[i].code,
                #[trigger] w[j].code,
            ) by {
                if i < k && j < k {
                    assert(w[i] == v[i] && w[j] == v[j]);
                } else if i < k && j == k {
                    assert(w[i] == v[i]);
                } else if i < k {
                    assert(w[i] == v[i] && w[j] == v[j - 1]);
                } else if i == k {
                    assert(w[j] == v[j - 1]);
                    lemma_code_lt_total(v[k as int].code, code@);
                    if j - 1 > k {
                        assert(code_lt(v[k as int].code, v[j - 1].code));
                        lemma_code_lt_transitive(code@, v[k as int].code, v[j - 1].code);
                    }
                } else {
                    assert(w[i] == v[i - 1] && w[j] == v[j - 1]);
                }
            }
            assert forall|j: int| 0 <= j < w.len() implies has_code(n, #[trigger] w[j].code) && w[j]
                == first_account(n, w[j].code) by {
                if j < k {
                    assert(w[j] == v[j]);
                    assert(has_code(es, v[j].code));
                } else if j > k {
                    assert(w[j] == v[j - 1]);
                    assert(has_code(es, v[j - 1].code));
                }
            }
            assert forall|i: int| 0 <= i < n.len() implies lists_code(w, #[trigger] n[i].account.code) by {
                if i < es.len() {
                    assert(n[i] == es[i]);
                    assert(lists_code(v, es[i].account.code));
                    let q = choose|q: int| 0 <= q < v.len() && #[trigger] v[q].code == es[i].account.code;
                    if q < k {
                        assert(w[q] == v[q]);
                    } else {
                        assert(w[q + 1] == v[q]);
                    }
                } else {
                    assert(w[k as int] == account@);
                }
            }
        }
        accounts.insert(k, account.clone());
        assert(account_views(accounts@) =~= w);
    }
}

/// The date of an optional cutoff.
pub open spec fn cutoff_view(cutoff: Option<Date>) -> Option<DateView> {
    match cutoff {
        Some(d) => Some(d@),
        None => None,
    }
}

/// The amounts of a list of entries, each signed by its account's normal
/// balance.
pub open spec fn signed_values(es: Seq<EntryView>) -> Seq<int> {
    es.map_values(|e: EntryView| signed_value(e))
}

/// One account's trial-balance row over entries `es`: its debit and
/// credit totals.
pub open spec fn balance_row(a: AccountView, es: Seq<EntryView>) -> AccountBalanceView {
    AccountBalanceView {
        account: a,
        debit: side_sum(code_entries(es, a.code), DebitOrCredit::Debit),
        credit: side_sum(code_entries(es, a.code), DebitOrCredit::Credit),
    }
}

/// The trial-balance rows of the listed accounts over entries `es`.
pub open spec fn ledger_rows(accounts: Seq<AccountView>, es: Seq<EntryView>) -> Seq<
    AccountBalanceView,
> {
    accounts.map_values(|a: AccountView| balance_row(a, es))
}

/// Whether both totals of a row fit in an `i128`.
pub open spec fn row_fits(r: AccountBalanceView) -> bool {
    r.debit <= i128::MAX && r.credit <= i128::MAX
}

/// Whether both totals of every row fit in an `i128`.
pub open spec fn rows_fit(rows: Seq<AccountBalanceView>) -> bool {
    forall|k: int| 0 <= k < rows.len() ==> row_fits(#[trigger] rows[k])
}

/// The rows with some activity: a non-zero debit or credit total.
pub open spec fn active_rows(rows: Seq<AccountBalanceView>) -> Seq<AccountBalanceView>
    decreases rows.len(),
{
    if rows.len() == 0 {
        Seq::empty()
    } else {
        let prev = active_rows(rows.drop_last());
        if rows.last().debit != 0 || rows.last().credit != 0 {
            prev.push(rows.last())
        } else {
            prev
        }
    }
}

/// The per-account totals of `es` in direction `dir`, one per listed account.
pub open spec fn code_sums(accounts: Seq<AccountView>, es: Seq<EntryView>, dir: DebitOrCredit) -> Seq<
    int,
> {
    accounts.map_values(|a: AccountView| side_sum(code_entries(es, a.code), dir))
}

/// Whether no two listed accounts share a code.
pub open spec fn distinct_codes(accounts: Seq<AccountView>) -> bool {
    forall|i: int, j: int|
        0 <= i < j < accounts.len() ==> #[trigger] accounts[i].code != #[trigger] accounts[j].code
}

/// Whether every total of every row lies between zero and `i128::MAX`.
pub open spec fn rows_in_range(rows: Seq<AccountBalanceView>) -> bool {
    forall|k: int|
        0 <= k < rows.len() ==> 0 <= #[trigger] rows[k].debit <= i128::MAX && 0 <= rows[k].credit
            <= i128::MAX
}

/// Every transaction is within no cutoff.
pub proof fn lemma_through_none(ts: Seq<TransactionView>)
    ensures
        transactions_through(ts, None) == ts,
    decreases ts.len(),
{
    if ts.len() > 0 {
        lemma_through_none(ts.drop_last());
        assert(ts.drop_last().push(ts.last()) =~= ts);
    }
}

/// A one-direction total grows by the last entry when it is in that
/// direction.
pub proof fn lemma_side_sum_push(es: Seq<EntryView>, e: EntryView, dir: DebitOrCredit)
    ensures
        side_sum(es.push(e), dir) == side_sum(es, dir) + if e.direction == dir {
            e.amount
        } else {
            0
        },
{
    assert(es.push(e).drop_last() =~= es);
}

/// One-direction totals add over concatenation.
pub proof fn lemma_side_sum_concat(a: Seq<EntryView>, b: Seq<EntryView>, dir: DebitOrCredit)
    ensures
        side_sum(a + b, dir) == side_sum(a, dir) + side_sum(b, dir),
    decreases b.len(),
{
    if b.len() == 0 {
        assert(a + b =~= a);
    } else {
        lemma_side_sum_concat(a, b.drop_last(), dir);
        assert((a + b).drop_last() =~= a + b.drop_last());
        assert((a + b).last() == b.last());
    }
}

/// A one-direction total of positive entries is not negative.
pub proof fn lemma_side_sum_nonneg(es: Seq<EntryView>, dir: DebitOrCredit)
    requires
        all_positive(es),
    ensures
        side_sum(es, dir) >= 0,
    decreases es.len(),
{
    if es.len() > 0 {
        let p = es.drop_last();
        assert(all_positive(p)) by {
            assert forall|i: int| 0 <= i < p.len() implies #[trigger] p[i].amount > 0 by {
                assert(p[i] == es[i]);
            }
        }
        lemma_side_sum_nonneg(p, dir);
        assert(es.last() == es[es.len() - 1]);
    }
}

/// Over positive entries, a prefix has no larger total than the whole.
pub proof fn lemma_side_sum_prefix(es: Seq<EntryView>, k: int, dir: DebitOrCredit)
    requires
        all_positive(es),
        0 <= k <= es.len(),
    ensures
        side_sum(es.subrange(0, k), dir) <= side_sum(es, dir),
    decreases es.len(),
{
    if k < es.len() {
        let p = es.drop_last();
        assert(all_positive(p)) by {
            assert forall|i: int| 0 <= i < p.len() implies #[trigger] p[i].amount > 0 by {
                assert(p[i] == es[i]);
            }
        }
        assert(es.subrange(0, k) =~= p.subrange(0, k));
        lemma_side_sum_prefix(p, k, dir);
        assert(es.last() == es[es.len() - 1]);
    } else {
        assert(es.subrange(0, k) =~= es);
    }
}

/// The entries posted to a code are among the entries, so positive when
/// they are.
pub proof fn lemma_code_entries_positive(es: Seq<EntryView>, code: Seq<char>)
    requires
        all_positive(es),
    ensures
        all_positive(code_entries(es, code)),
    decreases es.len(),
{
    if es.len() > 0 {
        let p = es.drop_last();
        assert(all_positive(p)) by {
            assert forall|i: int| 0 <= i < p.len() implies #[trigger] p[i].amount > 0 by {
                assert(p[i] == es[i]);
            }
        }
        lemma_code_entries_positive(p, code);
        assert(es.last() == es[es.len() - 1]);
        let c = code_entries(es, code);
        let q = code_entries(p, code);
        if es.last().account.code == code {
            assert forall|i: int| 0 <= i < c.len() implies #[trigger] c[i].amount > 0 by {
                if i < q.len() {
                    assert(c[i] == q[i]);
                }
            }
        }
    }
}

/// The entries of balanced transactions are all positive.
pub proof fn lemma_posted_positive(ts: Seq<TransactionView>)
    requires
        all_balanced(ts),
    ensures
        all_positive(posted_entries(ts)),
    decreases ts.len(),
{
    if ts.len() > 0 {
        let p = ts.drop_last();
        assert(all_balanced(p)) by {
            assert forall|i: int| 0 <= i < p.len() implies balanced_entries(#[trigger] p[i].entries) by {
                assert(p[i] == ts[i]);
            }
        }
        lemma_posted_positive(p);
        assert(balanced_entries(ts[ts.len() - 1].entries));
        let a = posted_entries(p);
        let b = ts.last().entries;
        assert forall|i: int| 0 <= i < (a + b).len() implies #[trigger] (a + b)[i].amount > 0 by {
            if i < a.len() {
                assert((a + b)[i] == a[i]);
            } else {
                assert((a + b)[i] == b[i - a.len()]);
            }
        }
    }
}

/// Transactions within a cutoff are among the transactions, so balanced
/// when they are.
pub proof fn lemma_through_balanced(ts: Seq<TransactionView>, cutoff: Option<DateView>)
    requires
        all_balanced(ts),
    ensures
        all_balanced(transactions_through(ts, cutoff)),
    decreases ts.len(),
{
    if ts.len() > 0 {
        let p = ts.drop_last();
        assert(all_balanced(p)) by {
            assert forall|i: int| 0 <= i < p.len() implies balanced_entries(#[trigger] p[i].entries) by {
                assert(p[i] == ts[i]);
            }
        }
        lemma_through_balanced(p, cutoff);
        assert(balanced_entries(ts[ts.len() - 1].entries));
        let q = transactions_through(p, cutoff);
        if within(ts.last(), cutoff) {
            assert forall|i: int| 0 <= i < q.push(ts.last()).len() implies balanced_entries(
                #[trigger] q.push(ts.last())[i].entries,
            ) by {
                if i < q.len() {
                    assert(q.push(ts.last())[i] == q[i]);
                }
            }
        }
    }
}

/// Coverage of a concatenation is coverage of both parts.
pub proof fn lemma_covers_concat(accounts: Seq<AccountView>, a: Seq<EntryView>, b: Seq<EntryView>)
    ensures
        covers(accounts, a + b) == (covers(accounts, a) && covers(accounts, b)),
{
    if covers(accounts, a + b) {
        assert forall|i: int| 0 <= i < a.len() implies lists_code(accounts, #[trigger] a[i].account.code) by {
            assert((a + b)[i] == a[i]);
        }
        assert forall|i: int| 0 <= i < b.len() implies lists_code(accounts, #[trigger] b[i].account.code) by {
            assert((a + b)[i + a.len()] == b[i]);
        }
    }
    if covers(accounts, a) && covers(accounts, b) {
        assert forall|i: int| 0 <= i < (a + b).len() implies lists_code(
            accounts,
            #[trigger] (a + b)[i].account.code,
        ) by {
            if i < a.len() {
                assert((a + b)[i] == a[i]);
            } else {
                assert((a + b)[i] == b[i - a.len()]);
            }
        }
    }
}

/// Accounts that cover every posted entry cover the entries within any
/// cutoff.
pub proof fn lemma_through_covered(
    accounts: Seq<AccountView>,
    ts: Seq<TransactionView>,
    cutoff: Option<DateView>,
)
    requires
        covers(accounts, posted_entries(ts)),
    ensures
        covers(accounts, posted_entries(transactions_through(ts, cutoff))),
    decreases ts.len(),
{
    if ts.len() == 0 {
        assert(posted_entries(transactions_through(ts, cutoff)) =~= Seq::<EntryView>::empty());
    } else {
        let p = ts.drop_last();
        lemma_covers_concat(accounts, posted_entries(p), ts.last().entries);
        lemma_through_covered(accounts, p, cutoff);
        let q = transactions_through(p, cutoff);
        if within(ts.last(), cutoff) {
            lemma_posted_push(q, ts.last());
            lemma_covers_concat(accounts, posted_entries(q), ts.last().entries);
        }
    }
}

/// The debit and credit totals of balanced transactions agree.
pub proof fn lemma_posted_balance(ts: Seq<TransactionView>)
    requires
        all_balanced(ts),
    ensures
        side_sum(posted_entries(ts), DebitOrCredit::Debit) == side_sum(
            posted_entries(ts),
            DebitOrCredit::Credit,
        ),
    decreases ts.len(),
{
    if ts.len() > 0 {
        let p = ts.drop_last();
        assert(all_balanced(p)) by {
            assert forall|i: int| 0 <= i < p.len() implies balanced_entries(#[trigger] p[i].entries) by {
                assert(p[i] == ts[i]);
            }
        }
        lemma_posted_balance(p);
        assert(balanced_entries(ts[ts.len() - 1].entries));
        lemma_side_sum_concat(posted_entries(p), ts.last().entries, DebitOrCredit::Debit);
        lemma_side_sum_concat(posted_entries(p), ts.last().entries, DebitOrCredit::Credit);
    }
}

/// With no entries, every per-account total is zero.
pub proof fn lemma_code_sums_empty(accounts: Seq<AccountView>, dir: DebitOrCredit)
    ensures
        sum(code_sums(accounts, Seq::<EntryView>::empty(), dir)) == 0,
    decreases accounts.len(),
{
    if accounts.len() > 0 {
        let q = accounts.drop_last();
        lemma_code_sums_empty(q, dir);
        assert(code_sums(accounts, Seq::<EntryView>::empty(), dir).drop_last() =~= code_sums(
            q,
            Seq::<EntryView>::empty(),
            dir,
        ));
    }
}

/// One more entry adds its amount to the one account with its code, if
/// any is listed.
pub proof fn lemma_code_sums_push(
    accounts: Seq<AccountView>,
    es: Seq<EntryView>,
    e: EntryView,
    dir: DebitOrCredit,
)
    requires
        distinct_codes(accounts),
    ensures
        sum(code_sums(accounts, es.push(e), dir)) == sum(code_sums(accounts, es, dir)) + if lists_code(
            accounts,
            e.account.code,
        ) && e.direction == dir {
            e.amount
        } else {
            0
        },
    decreases accounts.len(),
{
    if accounts.len() > 0 {
        let q = accounts.drop_last();
        let a = accounts.last();
        assert(distinct_codes(q)) by {
            assert forall|i: int, j: int| 0 <= i < j < q.len() implies #[trigger] q[i].code
                != #[trigger] q[j].code by {
                assert(q[i] == accounts[i] && q[j] == accounts[j]);
            }
        }
        lemma_code_sums_push(q, es, e, dir);
        assert(code_sums(accounts, es.push(e), dir).drop_last() =~= code_sums(q, es.push(e), dir));
        assert(code_sums(accounts, es, dir).drop_last() =~= code_sums(q, es, dir));
        assert(es.push(e).drop_last() =~= es);
        lemma_side_sum_push(code_entries(es, a.code), e, dir);
        assert(lists_code(accounts, e.account.code) == (lists_code(q, e.account.code) || a.code
            == e.account.code)) by {
            if lists_code(q, e.account.code) {
                let k = choose|k: int| 0 <= k < q.len() && #[trigger] q[k].code == e.account.code;
                assert(accounts[k] == q[k]);
            }
            if lists_code(accounts, e.account.code) {
                let k = choose|k: int| 0 <= k < accounts.len() && #[trigger] accounts[k].code
                    == e.account.code;
                if k < q.len() {
                    assert(accounts[k] == q[k]);
                }
            }
            if a.code == e.account.code {
                assert(accounts[accounts.len() - 1] == a);
            }
        }
        if lists_code(q, e.account.code) && a.code == e.account.code {
            let k = choose|k: int| 0 <= k < q.len() && #[trigger] q[k].code == e.account.code;
            assert(accounts[k] == q[k]);
            assert(accounts[accounts.len() - 1] == a);
        }
    }
}

/// Regrouping: over accounts with distinct codes covering every entry, the
/// per-account totals add up to the overall total.
pub proof fn lemma_code_sums_regroup(accounts: Seq<AccountView>, es: Seq<EntryView>, dir: DebitOrCredit)
    requires
        distinct_codes(accounts),
        covers(accounts, es),
    ensures
        sum(code_sums(accounts, es, dir)) == side_sum(es, dir),
    decreases es.len(),
{
    if es.len() == 0 {
        assert(es =~= Seq::<EntryView>::empty());
        lemma_code_sums_empty(accounts, dir);
    } else {
        let p = es.drop_last();
        let e = es.last();
        assert(p.push(e) =~= es);
        assert(covers(accounts, p)) by {
            assert forall|i: int| 0 <= i < p.len() implies lists_code(accounts, #[trigger] p[i].account.code) by {
                assert(p[i] == es[i]);
            }
        }
        assert(lists_code(accounts, es[es.len() - 1].account.code));
        lemma_code_sums_regroup(accounts, p, dir);
        lemma_code_sums_push(accounts, p, e, dir);
        lemma_side_sum_push(p, e, dir);
    }
}

/// Dropping inactive rows leaves the column totals unchanged and keeps
/// every total in range.
pub proof fn lemma_active_rows(rows: Seq<AccountBalanceView>)
    ensures
        sum(debit_column(active_rows(rows))) == sum(debit_column(rows)),
        sum(credit_column(active_rows(rows))) == sum(credit_column(rows)),
        rows_in_range(rows) ==> rows_in_range(active_rows(rows)),
    decreases rows.len(),
{
    if rows.len() > 0 {
        let p = rows.drop_last();
        let r = rows.last();
        lemma_active_rows(p);
        assert(debit_column(rows).drop_last() =~= debit_column(p));
        assert(credit_column(rows).drop_last() =~= credit_column(p));
        let a = active_rows(p);
        if r.debit != 0 || r.credit != 0 {
            assert(debit_column(a.push(r)).drop_last() =~= debit_column(a));
            assert(credit_column(a.push(r)).drop_last() =~= credit_column(a));
        }
        if rows_in_range(rows) {
            assert(rows_in_range(p)) by {
                assert forall|k: int| 0 <= k < p.len() implies 0 <= #[trigger] p[k].debit <= i128::MAX
                    && 0 <= p[k].credit <= i128::MAX by {
                    assert(p[k] == rows[k]);
                }
            }
            assert(rows[rows.len() - 1] == r);
            if r.debit != 0 || r.credit != 0 {
                assert forall|k: int| 0 <= k < a.push(r).len() implies 0 <= #[trigger] a.push(
                    r,
                )[k].debit <= i128::MAX && 0 <= a.push(r)[k].credit <= i128::MAX by {
                    if k < a.len() {
                        assert(a.push(r)[k] == a[k]);
                    }
                }
            }
        }
    }
}

/// Columns whose totals all lie in range have the saturating sum of their
/// plain sum.
proof fn lemma_columns_in_range(rows: Seq<AccountBalanceView>)
    requires
        rows_in_range(rows),
    ensures
        saturating_sum(debit_column(rows)) == (if sum(debit_column(rows)) > i128::MAX {
            i128::MAX as int
        } else {
            sum(debit_column(rows))
        }),
        saturating_sum(credit_column(rows)) == (if sum(credit_column(rows)) > i128::MAX {
            i128::MAX as int
        } else {
            sum(credit_column(rows))
        }),
{
    let d = debit_column(rows);
    let c = credit_column(rows);
    assert forall|i: int| 0 <= i < d.len() implies 0 <= #[trigger] d[i] <= i128::MAX by {
        assert(d[i] == rows[i].debit);
    }
    assert forall|i: int| 0 <= i < c.len() implies 0 <= #[trigger] c[i] <= i128::MAX by {
        assert(0 <= rows[i].debit);
        assert(c[i] == rows[i].credit);
    }
    lemma_saturating_sum_nonneg(d);
    lemma_saturating_sum_nonneg(c);
}

/// The trial-balance rows of a ledger over the entries within a cutoff:
/// every total lies in range when each fits in an `i128`.
proof fn lemma_rows_in_range(l: LedgerView, cutoff: Option<DateView>)
    requires
        ledger_inv(l),
        rows_fit(ledger_rows(l.accounts, posted_entries(transactions_through(l.transactions, cutoff)))),
    ensures
        rows_in_range(ledger_rows(l.accounts, posted_entries(transactions_through(l.transactions, cutoff)))),
{
    let es = posted_entries(transactions_through(l.transactions, cutoff));
    let rows = ledger_rows(l.accounts, es);
    lemma_through_balanced(l.transactions, cutoff);
    lemma_posted_positive(transactions_through(l.transactions, cutoff));
    assert forall|k: int| 0 <= k < rows.len() implies 0 <= #[trigger] rows[k].debit <= i128::MAX && 0
        <= rows[k].credit <= i128::MAX by {
        lemma_code_entries_positive(es, l.accounts[k].code);
        lemma_side_sum_nonneg(code_entries(es, l.accounts[k].code), DebitOrCredit::Debit);
        lemma_side_sum_nonneg(code_entries(es, l.accounts[k].code), DebitOrCredit::Credit);
        assert(row_fits(rows[k]));
    }
}

/// A ledger's trial balance balances: over the accounts the ledger lists,
/// the debit totals and the credit totals of the entries within any cutoff
/// add up to the same amount, since every posted transaction balances.
pub proof fn lemma_ledger_rows_balance(l: LedgerView, cutoff: Option<DateView>)
    requires
        ledger_inv(l),
    ensures
        sum(debit_column(ledger_rows(l.accounts, posted_entries(transactions_through(l.transactions, cutoff)))))
            == sum(credit_column(ledger_rows(l.accounts, posted_entries(transactions_through(l.transactions, cutoff))))),
{
    let ts = transactions_through(l.transactions, cutoff);
    let es = posted_entries(ts);
    let rows = ledger_rows(l.accounts, es);
    lemma_through_balanced(l.transactions, cutoff);
    lemma_posted_balance(ts);
    lemma_through_covered(l.accounts, l.transactions, cutoff);
    assert(distinct_codes(l.accounts)) by {
        assert forall|i: int, j: int| 0 <= i < j < l.accounts.len() implies #[trigger] l.accounts[i].code
            != #[trigger] l.accounts[j].code by {
            lemma_code_lt_irreflexive(l.accounts[i].code);
        }
    }
    lemma_code_sums_regroup(l.accounts, es, DebitOrCredit::Debit);
    lemma_code_sums_regroup(l.accounts, es, DebitOrCredit::Credit);
    assert(debit_column(rows) =~= code_sums(l.accounts, es, DebitOrCredit::Debit));
    assert(credit_column(rows) =~= code_sums(l.accounts, es, DebitOrCredit::Credit));
}

/// Adds up the signed amounts of `entries` in order. Fails with `Overflow`
/// as soon as a running total leaves the range of `i128`.
fn signed_total(entries: &Vec<&Entry>) -> (r: Result<Amount, MoneyError>)
    ensures
        match checked_fold(signed_values(ref_views(entries@))) {
            Some(v) => r matches Ok(a) && a@ == v,
            None => r == Err::<Amount, MoneyError>(MoneyError::Overflow),
        },
{
    let ghost vs = signed_values(ref_views(entries@));
    let mut total = Amount::zero();
    let mut i: usize = 0;
    assert(vs.subrange(0, 0) =~= Seq::<int>::empty());
    while i < entries.len()
        invariant
            i <= entries@.len(),
            vs == signed_values(ref_views(entries@)),
            vs.len() == entries@.len(),
            checked_fold(vs.subrange(0, i as int)) == Some(total@),
        decreases entries@.len() - i,
    {
        let s = entries[i].signed_amount();
        assert(s@ == vs[i as int]);
        assert(vs.subrange(0, i + 1).drop_last() =~= vs.subrange(0, i as int));
        match total.checked_add(s) {
            Some(t) => total = t,
            None => {
                proof {
                    lemma_fold_none_sticky(vs.subrange(0, i + 1), vs);
                }
                return Err(MoneyError::Overflow);
            },
        }
        i = i + 1;
    }
    assert(vs.subrange(0, i as int) =~= vs);
    Ok(total)
}

/// Adds up the amounts of the positive `entries` in direction `dir`.
/// Fails with `Overflow` when the total exceeds `i128::MAX`.
fn direction_total(entries: &Vec<&Entry>, dir: DebitOrCredit) -> (r: Result<Amount, MoneyError>)
    requires
        all_positive(ref_views(entries@)),
    ensures
        side_sum(ref_views(entries@), dir) <= i128::MAX ==> (r matches Ok(a) && a@ == side_sum(
            ref_views(entries@),
            dir,
        )),
        side_sum(ref_views(entries@), dir) > i128::MAX ==> r == Err::<Amount, MoneyError>(
            MoneyError::Overflow,
        ),
{
    let ghost es = ref_views(entries@);
    let mut total = Amount::zero();
    let mut i: usize = 0;
    assert(es.subrange(0, 0) =~= Seq::<EntryView>::empty());
    while i < entries.len()
        invariant
            i <= entries@.len(),
            es == ref_views(entries@),
            es.len() == entries@.len(),
            all_positive(es),
            total@ == side_sum(es.subrange(0, i as int), dir),
        decreases entries@.len() - i,
    {
        let e = entries[i];
        assert(e@ == es[i as int]);
        assert(es.subrange(0, i + 1).drop_last() =~= es.subrange(0, i as int));
        if e.direction() == dir {
            match total.checked_add(e.amount().amount()) {
                Some(t) => total = t,
                None => {
                    proof {
                        lemma_side_sum_prefix(es, i + 1, dir);
                    }
                    return Err(MoneyError::Overflow);
                },
            }
        }
        i = i + 1;
    }
    assert(es.subrange(0, i as int) =~= es);
    Ok(total)
}

/// A general ledger holding posted transactions and answering balance
/// queries. It is append-only: a posted transaction is never removed, and
/// corrections are made by reversing entries.
#[derive(Debug)]
pub struct Ledger {
    transactions: Vec<Transaction>,
    accounts: Vec<Account>,
}

impl View for Ledger {
    type V = LedgerView;

    closed spec fn view(&self) -> LedgerView {
        LedgerView {
            transactions: transaction_views(self.transactions@),
            accounts: account_views(self.accounts@),
        }
    }
}

impl Ledger {
    /// Every ledger keeps its invariant: each posted transaction balances,
    /// and the account list indexes the posted entries.
    #[verifier::type_invariant]
    spec fn well_formed(self) -> bool {
        ledger_inv(self@)
    }

    /// Creates a new empty ledger.
    pub fn new() -> (l: Ledger)
        ensures
            l@.transactions == Seq::<TransactionView>::empty(),
            l@.accounts == Seq::<AccountView>::empty(),
            ledger_inv(l@),
    {
        let l = Ledger { transactions: Vec::new(), accounts: Vec::new() };
        assert(l@.transactions =~= Seq::<TransactionView>::empty());
        assert(l@.accounts =~= Seq::<AccountView>::empty());
        l
    }

    /// Posts a validated transaction to the ledger.
    pub fn post(&mut self, transaction: Transaction)
        ensures
            final(self)@.transactions == old(self)@.transactions.push(transaction@),
            ledger_inv(final(self)@),
    {
        let mut current = Ledger::new();
        std::mem::swap(&mut current, self);
        proof {
            use_type_invariant(&current);
        }
        let ghost ts = current@.transactions;
        let Ledger { transactions: mut posted, accounts: mut accounts } = current;
        assert(transaction_views(posted@) == ts);
        transaction.balanced();
        let ghost base = posted_entries(ts);
        let entries = transaction.entries();
        assert(base + transaction@.entries.subrange(0, 0) =~= base);
        let mut j: usize = 0;
        while j < entries.len()
            invariant
                j <= entries@.len(),
                entry_views(entries@) == transaction@.entries,
                base == posted_entries(ts),
                accounts_indexed(
                    account_views(accounts@),
                    base + transaction@.entries.subrange(0, j as int),
                ),
            decreases entries@.len() - j,
        {
            let ghost seen = base + transaction@.entries.subrange(0, j as int);
            let ghost e = transaction@.entries[j as int];
            assert(entries@[j as int]@ == e);
            index_account(&mut accounts, entries[j].account(), Ghost(seen), Ghost(e));
            assert(seen.push(e) =~= base + transaction@.entries.subrange(0, j + 1));
            j = j + 1;
        }
        assert(transaction@.entries.subrange(0, j as int) =~= transaction@.entries);
        proof {
            lemma_posted_push(ts, transaction@);
        }
        let ghost t = transaction@;
        posted.push(transaction);
        assert(transaction_views(posted@) =~= ts.push(t));
        assert(all_balanced(ts.push(t))) by {
            assert forall|i: int| 0 <= i < ts.push(t).len() implies balanced_entries(
                #[trigger] ts.push(t)[i].entries,
            ) by {
                if i < ts.len() {
                    assert(ts.push(t)[i] == ts[i]);
                }
            }
        }
        *self = Ledger { transactions: posted, accounts };
    }

    /// Returns all posted transactions.
    pub fn transactions(&self) -> (r: &[Transaction])
        ensures
            transaction_views(r@) == self@.transactions,
    {
        self.transactions.as_slice()
    }

    /// Returns the number of posted transactions.
    pub fn transaction_count(&self) -> (n: usize)
        ensures
            n == self@.transactions.len(),
    {
        self.transactions.len()
    }

    /// The entries within `cutoff` posted to account code `code`, in order.
    fn entries_with_code(&self, code: &AccountCode, cutoff: Option<Date>) -> (r: Vec<&Entry>)
        ensures
            ref_views(r@) == code_entries(
                posted_entries(transactions_through(self@.transactions, cutoff_view(cutoff))),
                code@,
            ),
    {
        let ghost ts = self@.transactions;
        let ghost cv = cutoff_view(cutoff);
        let mut r: Vec<&Entry> = Vec::new();
        let mut i: usize = 0;
        assert(ts.subrange(0, 0) =~= Seq::<TransactionView>::empty());
        assert(ref_views(r@) =~= Seq::<EntryView>::empty());
        while i < self.transactions.len()
            invariant
                i <= self.transactions@.len(),
                ts == transaction_views(self.transactions@),
                cv == cutoff_view(cutoff),
                ref_views(r@) == code_entries(
                    posted_entries(transactions_through(ts.subrange(0, i as int), cv)),
                    code@,
                ),
            decreases self.transactions@.len() - i,
        {
            let ghost before = transactions_through(ts.subrange(0, i as int), cv);
            let t = &self.transactions[i];
            assert(t@ == ts[i as int]);
            assert(ts.subrange(0, i + 1).drop_last() =~= ts.subrange(0, i as int));
            assert(ts.subrange(0, i + 1).last() == ts[i as int]);
            let keep = match cutoff {
                Some(d) => t.date().on_or_before(&d),
                None => true,
            };
            if keep {
                let es = t.entries();
                let ghost base = posted_entries(before);
                proof {
                    lemma_posted_push(before, t@);
                }
                assert(base + t@.entries.subrange(0, 0) =~= base);
                let mut j: usize = 0;
                while j < es.len()
                    invariant
                        j <= es@.len(),
                        entry_views(es@) == t@.entries,
                        ref_views(r@) == code_entries(base + t@.entries.subrange(0, j as int), code@),
                    decreases es@.len() - j,
                {
                    let ghost seen = base + t@.entries.subrange(0, j as int);
                    let ghost next = base + t@.entries.subrange(0, j + 1);
                    assert(next.drop_last() =~= seen);
                    assert(next.last() == es@[j as int]@);
                    let ghost old_r = r@;
                    if es[j].account().code() == code {
                        r.push(&es[j]);
                        assert(ref_views(r@) =~= ref_views(old_r).push(es@[j as int]@));
                    }
                    j = j + 1;
                }
                assert(t@.entries.subrange(0, j as int) =~= t@.entries);
            }
            i = i + 1;
        }
        assert(ts.subrange(0, i as int) =~= ts);
        r
    }

    /// Returns every entry posted to the code of `account`, in order.
    pub fn entries_for(&self, account: &Account) -> (r: Vec<&Entry>)
        ensures
            ref_views(r@) == code_entries(posted_entries(self@.transactions), account@.code),
    {
        proof {
            lemma_through_none(self@.transactions);
        }
        self.entries_with_code(account.code(), None)
    }

    /// Computes the net balance of `account` across all transactions: the
    /// entries posted to its code, each signed by its account's normal
    /// balance, added up in order. Fails with `Overflow` when a running
    /// total leaves the range of `i128`.
    pub fn balance_for(&self, account: &Account) -> (r: Result<Amount, MoneyError>)
        ensures
            match checked_fold(
                signed_values(code_entries(posted_entries(self@.transactions), account@.code)),
            ) {
                Some(v) => r matches Ok(a) && a@ == v,
                None => r == Err::<Amount, MoneyError>(MoneyError::Overflow),
            },
    {
        proof {
            lemma_through_none(self@.transactions);
        }
        let es = self.entries_with_code(account.code(), None);
        signed_total(&es)
    }

    /// Computes the net balance of `account` using only the transactions
    /// dated on or before `date`.
    pub fn balance_for_as_of(&self, account: &Account, date: Date) -> (r: Result<Amount, MoneyError>)
        ensures
            match checked_fold(
                signed_values(
                    code_entries(
                        posted_entries(transactions_through(self@.transactions, Some(date@))),
                        account@.code,
                    ),
                ),
            ) {
                Some(v) => r matches Ok(a) && a@ == v,
                None => r == Err::<Amount, MoneyError>(MoneyError::Overflow),
            },
    {
        let es = self.entries_with_code(account.code(), Some(date));
        signed_total(&es)
    }

    /// Computes the total of the debit entries posted to the code of
    /// `account`. Fails with `Overflow` when it exceeds `i128::MAX`.
    pub fn debit_total_for(&self, account: &Account) -> (r: Result<Amount, MoneyError>)
        ensures
            ({
                let s = side_sum(
                    code_entries(posted_entries(self@.transactions), account@.code),
                    DebitOrCredit::Debit,
                );
                &&& s <= i128::MAX ==> (r matches Ok(a) && a@ == s)
                &&& s > i128::MAX ==> r == Err::<Amount, MoneyError>(MoneyError::Overflow)
            }),
    {
        proof {
            use_type_invariant(self);
        }
        self.direction_total_for(account, DebitOrCredit::Debit)
    }

    /// Computes the total of the credit entries posted to the code of
    /// `account`. Fails with `Overflow` when it exceeds `i128::MAX`.
    pub fn credit_total_for(&self, account: &Account) -> (r: Result<Amount, MoneyError>)
        ensures
            ({
                let s = side_sum(
                    code_entries(posted_entries(self@.transactions), account@.code),
                    DebitOrCredit::Credit,
                );
                &&& s <= i128::MAX ==> (r matches Ok(a) && a@ == s)
                &&& s > i128::MAX ==> r == Err::<Amount, MoneyError>(MoneyError::Overflow)
            }),
    {
        proof {
            use_type_invariant(self);
        }
        self.direction_total_for(account, DebitOrCredit::Credit)
    }

    fn direction_total_for(&self, account: &Account, dir: DebitOrCredit) -> (r: Result<
        Amount,
        MoneyError,
    >)
        ensures
            ({
                let s = side_sum(code_entries(posted_entries(self@.transactions), account@.code), dir);
                &&& s <= i128::MAX ==> (r matches Ok(a) && a@ == s)
                &&& s > i128::MAX ==> r == Err::<Amount, MoneyError>(MoneyError::Overflow)
            }),
    {
        proof {
            use_type_invariant(self);
        }
        proof {
            lemma_through_none(self@.transactions);
            lemma_posted_positive(self@.transactions);
            lemma_code_entries_positive(posted_entries(self@.transactions), account@.code);
        }
        let es = self.entries_with_code(account.code(), None);
        direction_total(&es, dir)
    }

    /// Computes the debit and credit totals of the entries within `cutoff`
    /// posted to code `code`.
    fn debit_credit_totals(&self, code: &AccountCode, cutoff: Option<Date>) -> (r: Result<
        (Amount, Amount),
        MoneyError,
    >)
        ensures
            ({
                let es = code_entries(
                    posted_entries(transactions_through(self@.transactions, cutoff_view(cutoff))),
                    code@,
                );
                let d = side_sum(es, DebitOrCredit::Debit);
                let c = side_sum(es, DebitOrCredit::Credit);
                &&& d <= i128::MAX && c <= i128::MAX ==> (r matches Ok((x, y)) && x@ == d && y@ == c)
                &&& !(d <= i128::MAX && c <= i128::MAX) ==> r == Err::<(Amount, Amount), MoneyError>(
                    MoneyError::Overflow,
                )
            }),
    {
        proof {
            use_type_invariant(self);
        }
        proof {
            lemma_through_balanced(self@.transactions, cutoff_view(cutoff));
            lemma_posted_positive(transactions_through(self@.transactions, cutoff_view(cutoff)));
            lemma_code_entries_positive(
                posted_entries(transactions_through(self@.transactions, cutoff_view(cutoff))),
                code@,
            );
        }
        let es = self.entries_with_code(code, cutoff);
        let d = match direction_total(&es, DebitOrCredit::Debit) {
            Ok(a) => a,
            Err(e) => return Err(e),
        };
        let c = match direction_total(&es, DebitOrCredit::Credit) {
            Ok(a) => a,
            Err(e) => return Err(e),
        };
        Ok((d, c))
    }

    /// Generates a trial balance from all posted transactions: one row per
    /// account, in code order, with its debit and credit totals. Fails with
    /// `Overflow` when a total exceeds `i128::MAX`. A trial balance that
    /// comes back always balances.
    pub fn trial_balance(&self) -> (r: Result<TrialBalance, MoneyError>)
        ensures
            rows_fit(ledger_rows(self@.accounts, posted_entries(self@.transactions))) ==> (r matches Ok(
                tb,
            ) && tb@ == ledger_rows(self@.accounts, posted_entries(self@.transactions))),
            !rows_fit(ledger_rows(self@.accounts, posted_entries(self@.transactions))) ==> r
                == Err::<TrialBalance, MoneyError>(MoneyError::Overflow),
            r matches Ok(tb) ==> saturating_sum(debit_column(tb@)) == saturating_sum(
                credit_column(tb@),
            ),
    {
        proof {
            use_type_invariant(self);
        }
        let ghost rows = ledger_rows(self@.accounts, posted_entries(self@.transactions));
        proof {
            lemma_through_none(self@.transactions);
        }
        let mut balances: Vec<AccountBalance> = Vec::new();
        let mut k: usize = 0;
        assert(balance_views(balances@) =~= rows.subrange(0, 0));
        while k < self.accounts.len()
            invariant
                k <= self.accounts@.len(),
                ledger_inv(self@),
                rows == ledger_rows(self@.accounts, posted_entries(self@.transactions)),
                transactions_through(self@.transactions, None) == self@.transactions,
                balance_views(balances@) == rows.subrange(0, k as int),
                forall|i: int| 0 <= i < k ==> row_fits(#[trigger] rows[i]),
            decreases self.accounts@.len() - k,
        {
            let account = &self.accounts[k];
            assert(account@ == self@.accounts[k as int]);
            let (d, c) = match self.debit_credit_totals(account.code(), None) {
                Ok(p) => p,
                Err(e) => {
                    assert(!row_fits(rows[k as int]));
                    return Err(e);
                },
            };
            let ghost old_b = balances@;
            balances.push(AccountBalance::new(account.clone(), d, c));
            assert(balance_views(balances@) =~= balance_views(old_b).push(rows[k as int]));
            assert(rows.subrange(0, k + 1) =~= rows.subrange(0, k as int).push(rows[k as int]));
            k = k + 1;
        }
        assert(rows.subrange(0, k as int) =~= rows);
        proof {
            lemma_ledger_rows_balance(self@, None);
            lemma_rows_in_range(self@, None);
            lemma_columns_in_range(rows);
        }
        Ok(TrialBalance::new(balances))
    }

    /// Returns whether the ledger is balanced: total debits equal total
    /// credits. Every posted transaction balances, so this is `Ok(true)`
    /// unless a total overflows.
    pub fn is_balanced(&self) -> (r: Result<bool, MoneyError>)
        ensures
            r == if rows_fit(ledger_rows(self@.accounts, posted_entries(self@.transactions))) {
                Ok::<bool, MoneyError>(true)
            } else {
                Err::<bool, MoneyError>(MoneyError::Overflow)
            },
    {
        proof {
            use_type_invariant(self);
        }
        match self.trial_balance() {
            Ok(tb) => Ok(tb.is_balanced()),
            Err(e) => Err(e),
        }
    }

    /// Returns the transactions dated on or before `date`, in posting order.
    pub fn transactions_as_of(&self, date: Date) -> (r: Vec<&Transaction>)
        ensures
            r@.map_values(|t: &Transaction| t@) == transactions_through(self@.transactions, Some(date@)),
    {
        let ghost ts = self@.transactions;
        let mut r: Vec<&Transaction> = Vec::new();
        let mut i: usize = 0;
        assert(r@.map_values(|t: &Transaction| t@) =~= transactions_through(ts.subrange(0, 0), Some(date@)));
        while i < self.transactions.len()
            invariant
                i <= self.transactions@.len(),
                ts == transaction_views(self.transactions@),
                r@.map_values(|t: &Transaction| t@) == transactions_through(ts.subrange(0, i as int), Some(date@)),
            decreases self.transactions@.len() - i,
        {
            let t = &self.transactions[i];
            assert(t@ == ts[i as int]);
            assert(ts.subrange(0, i + 1).drop_last() =~= ts.subrange(0, i as int));
            assert(ts.subrange(0, i + 1).last() == ts[i as int]);
            let ghost old_r = r@;
            if t.date().on_or_before(&date) {
                r.push(t);
                assert(r@.map_values(|t: &Transaction| t@) =~= old_r.map_values(|t: &Transaction| t@).push(ts[i as int]));
            }
            i = i + 1;
        }
        assert(ts.subrange(0, i as int) =~= ts);
        r
    }

    /// Generates a trial balance from the transactions dated on or before
    /// `date`, leaving out the accounts with no activity by then. Fails
    /// with `Overflow` when a total exceeds `i128::MAX`. A trial balance
    /// that comes back always balances.
    pub fn trial_balance_as_of(&self, date: Date) -> (r: Result<TrialBalance, MoneyError>)
        ensures
            ({
                let rows = ledger_rows(
                    self@.accounts,
                    posted_entries(transactions_through(self@.transactions, Some(date@))),
                );
                &&& rows_fit(rows) ==> (r matches Ok(tb) && tb@ == active_rows(rows))
                &&& !rows_fit(rows) ==> r == Err::<TrialBalance, MoneyError>(MoneyError::Overflow)
            }),
            r matches Ok(tb) ==> saturating_sum(debit_column(tb@)) == saturating_sum(
                credit_column(tb@),
            ),
    {
        proof {
            use_type_invariant(self);
        }
        let ghost rows = ledger_rows(
            self@.accounts,
            posted_entries(transactions_through(self@.transactions, Some(date@))),
        );
        let mut balances: Vec<AccountBalance> = Vec::new();
        let mut k: usize = 0;
        assert(balance_views(balances@) =~= active_rows(rows.subrange(0, 0)));
        while k < self.accounts.len()
            invariant
                k <= self.accounts@.len(),
                ledger_inv(self@),
                rows == ledger_rows(
                    self@.accounts,
                    posted_entries(transactions_through(self@.transactions, Some(date@))),
                ),
                balance_views(balances@) == active_rows(rows.subrange(0, k as int)),
                forall|i: int| 0 <= i < k ==> row_fits(#[trigger] rows[i]),
            decreases self.accounts@.len() - k,
        {
            let account = &self.accounts[k];
            assert(account@ == self@.accounts[k as int]);
            let (d, c) = match self.debit_credit_totals(account.code(), Some(date)) {
                Ok(p) => p,
                Err(e) => {
                    assert(!row_fits(rows[k as int]));
                    return Err(e);
                },
            };
            assert(rows.subrange(0, k + 1).drop_last() =~= rows.subrange(0, k as int));
            assert(rows.subrange(0, k + 1).last() == rows[k as int]);
            if !d.is_zero() || !c.is_zero() {
                let ghost old_b = balances@;
                balances.push(AccountBalance::new(account.clone(), d, c));
                assert(balance_views(balances@) =~= balance_views(old_b).push(rows[k as int]));
            }
            k = k + 1;
        }
        assert(rows.subrange(0, k as int) =~= rows);
        proof {
            lemma_ledger_rows_balance(self@, Some(date@));
            lemma_rows_in_range(self@, Some(date@));
            lemma_active_rows(rows);
            lemma_columns_in_range(active_rows(rows));
        }
        Ok(TrialBalance::new(balances))
    }
}

impl Default for Ledger {
    fn default() -> (l: Ledger)
        ensures
            l@.transactions == Seq::<TransactionView>::empty(),
            l@.accounts == Seq::<AccountView>::empty(),
            ledger_inv(l@),
    {
        Ledger::new()
    }
}

impl Clone for Ledger {
    fn clone(&self) -> (r: Ledger)
        ensures
            r@ == self@,
    {
        proof {
            use_type_invariant(self);
        }
        let mut transactions: Vec<Transaction> = Vec::new();
        let mut i: usize = 0;
        while i < self.transactions.len()
            invariant
                i <= self.transactions@.len(),
                transaction_views(transactions@) == transaction_views(self.transactions@).subrange(
                    0,
                    i as int,
                ),
            decreases self.transactions@.len() - i,
        {
            let ghost old_t = transactions@;
            transactions.push(self.transactions[i].clone());
            assert(transaction_views(transactions@) =~= transaction_views(old_t).push(
                self.transactions@[i as int]@,
            ));
            assert(transaction_views(self.transactions@).subrange(0, i + 1) =~= transaction_views(
                self.transactions@,
            ).subrange(0, i as int).push(self.transactions@[i as int]@));
            i = i + 1;
        }
        assert(transaction_views(self.transactions@).subrange(0, i as int) =~= transaction_views(
            self.transactions@,
        ));
        let mut accounts: Vec<Account> = Vec::new();
        let mut k: usize = 0;
        while k < self.accounts.len()
            invariant
                k <= self.accounts@.len(),
                account_views(accounts@) == account_views(self.accounts@).subrange(0, k as int),
            decreases self.accounts@.len() - k,
        {
            let ghost old_a = accounts@;
            accounts.push(self.accounts[k].clone());
            assert(account_views(accounts@) =~= account_views(old_a).push(self.accounts@[k as int]@));
            assert(account_views(self.accounts@).subrange(0, k + 1) =~= account_views(
                self.accounts@,
            ).subrange(0, k as int).push(self.accounts@[k as int]@));
            k = k + 1;
        }
        assert(account_views(self.accounts@).subrange(0, k as int) =~= account_views(self.accounts@));
        assert(ledger_inv(LedgerView {
            transactions: transaction_views(transactions@),
            accounts: account_views(accounts@),
        }));
        Ledger { transactions, accounts }
    }
}

} // verus!
