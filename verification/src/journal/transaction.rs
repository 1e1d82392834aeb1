//! Validated, balanced double-entry transactions.
use vstd::prelude::*;
use crate::types::account::{Account, AccountView};
use crate::types::amount::{fits_i128, Amount};
use crate::types::currency::Currency;
use crate::types::date::{Date, DateView};
use crate::types::debit_credit::DebitOrCredit;
use crate::types::document::SourceDocument;
use crate::types::entry::{entry_text, signed_value, Entry, EntryView};
use crate::types::date::date_text;
use crate::types::money::{money_error_text, same_currency, Money, MoneyError};
use crate::types::currency::currency_code_text;
use crate::text::int_decimal;

verus! {

broadcast use crate::types::amount::lemma_amount_ext, crate::types::amount::lemma_amount_range;

/// Error type for transaction validation.
#[derive(Debug, Clone, PartialEq, Eq)]
#[non_exhaustive]
pub enum TransactionError {
    /// The transaction has no entries.
    NoEntries,
    /// The transaction has only one entry (need at least two).
    SingleEntry,
    /// Total debits do not equal total credits.
    Unbalanced {
        /// Total of all debit entries.
        total_debits: Amount,
        /// Total of all credit entries.
        total_credits: Amount,
    },
    /// Entries use more than one currency.
    CurrencyMismatch {
        /// The distinct currencies found in the entries.
        currencies: Vec<Currency>,
    },
    /// An error occurred during monetary arithmetic.
    Money(MoneyError),
}

impl From<MoneyError> for TransactionError {
    fn from(err: MoneyError) -> (e: TransactionError)
        ensures
            e == TransactionError::Money(err),
    {
        TransactionError::Money(err)
    }
}

impl vstd::std_specs::convert::FromSpecImpl<MoneyError> for TransactionError {
    open spec fn obeys_from_spec() -> bool {
        true
    }

    open spec fn from_spec(v: MoneyError) -> TransactionError {
        TransactionError::Money(v)
    }
}

/// The codes of a list of currencies, separated by `, `.
pub open spec fn codes_joined(cs: Seq<Currency>) -> Seq<char>
    decreases cs.len(),
{
    if cs.len() == 0 {
        Seq::empty()
    } else if cs.len() == 1 {
        currency_code_text(cs[0])
    } else {
        codes_joined(cs.drop_last()) + ", "@ + currency_code_text(cs.last())
    }
}

/// The message of a transaction error.
pub open spec fn transaction_error_text(e: TransactionError) -> Seq<char> {
    match e {
        TransactionError::NoEntries => "transaction must have at least two entries"@,
        TransactionError::SingleEntry => "transaction must have at least two entries, got one"@,
        TransactionError::Unbalanced { total_debits, total_credits } => "transaction is unbalanced: debits="@
            + int_decimal(total_debits@) + ", credits="@ + int_decimal(total_credits@),
        TransactionError::CurrencyMismatch { currencies } => "transaction entries use multiple currencies: "@
            + codes_joined(currencies@),
        TransactionError::Money(m) => "monetary arithmetic error: "@ + money_error_text(m),
    }
}

impl TransactionError {
    /// The human-readable message for this error.
    pub fn to_string(&self) -> (s: String)
        ensures
            s@ == transaction_error_text(*self),
    {
        match self {
            TransactionError::NoEntries => "transaction must have at least two entries".to_string(),
            TransactionError::SingleEntry => "transaction must have at least two entries, got one".to_string(),
            TransactionError::Unbalanced { total_debits, total_credits } => {
                let mut s = "transaction is unbalanced: debits=".to_string();
                let d = total_debits.to_string();
                s.append(d.as_str());
                s.append(", credits=");
                let c = total_credits.to_string();
                s.append(c.as_str());
                s
            },
            TransactionError::CurrencyMismatch { currencies } => {
                let mut s = "transaction entries use multiple currencies: ".to_string();
                let ghost head = s@;
                let mut i: usize = 0;
                while i < currencies.len()
                    invariant
                        i <= currencies@.len(),
                        s@ == head + codes_joined(currencies@.subrange(0, i as int)),
                    decreases currencies.len() - i,
                {
                    let ghost p = currencies@.subrange(0, i as int);
                    let ghost n = currencies@.subrange(0, i + 1);
                    assert(n.drop_last() =~= p);
                    if i > 0 {
                        s.append(", ");
                    } else {
                        assert(n =~= seq![currencies@[0]]);
                    }
                    s.append(currencies[i].code());
                    i = i + 1;
                }
                assert(currencies@.subrange(0, i as int) =~= currencies@);
                s
            },
            TransactionError::Money(e) => {
                let mut s = "monetary arithmetic error: ".to_string();
                let m = e.to_string();
                s.append(m.as_str());
                s
            },
        }
    }
}

/// The views of a slice of entries.
pub open spec fn entry_views(es: Seq<Entry>) -> Seq<EntryView> {
    es.map_values(|e: Entry| e@)
}

/// The sum of the amounts of the entries in direction `dir`.
pub open spec fn side_sum(es: Seq<EntryView>, dir: DebitOrCredit) -> int
    decreases es.len(),
{
    if es.len() == 0 {
        0
    } else {
        side_sum(es.drop_last(), dir) + if es.last().direction == dir {
            es.last().amount
        } else {
            0
        }
    }
}

/// Running the total of the entries in direction `dir`, in order, as
/// money of currency `cur`: the first entry of another currency gives a
/// currency mismatch, and a total beyond `i128` gives an overflow.
pub open spec fn side_total(es: Seq<EntryView>, dir: DebitOrCredit, cur: Currency) -> Result<int, MoneyError>
    decreases es.len(),
{
    if es.len() == 0 {
        Ok(0)
    } else {
        match side_total(es.drop_last(), dir, cur) {
            Err(e) => Err(e),
            Ok(acc) => {
                let e = es.last();
                if e.direction != dir {
                    Ok(acc)
                } else if !same_currency(cur, e.currency) {
                    Err(MoneyError::CurrencyMismatch { expected: cur, actual: e.currency })
                } else if !fits_i128(acc + e.amount) {
                    Err(MoneyError::Overflow)
                } else {
                    Ok(acc + e.amount)
                }
            },
        }
    }
}

/// Whether every entry has the same currency as `cur`.
pub open spec fn all_in_currency(es: Seq<EntryView>, cur: Currency) -> bool {
    forall|i: int| 0 <= i < es.len() ==> same_currency(#[trigger] es[i].currency, cur)
}

/// Whether every entry amount is positive.
pub open spec fn all_positive(es: Seq<EntryView>) -> bool {
    forall|i: int| 0 <= i < es.len() ==> #[trigger] es[i].amount > 0
}

/// The distinct currencies of a sequence, in order of first appearance.
pub open spec fn distinct_currencies(cs: Seq<Currency>) -> Seq<Currency>
    decreases cs.len(),
{
    if cs.len() == 0 {
        Seq::empty()
    } else {
        let prev = distinct_currencies(cs.drop_last());
        if exists|i: int| 0 <= i < prev.len() && same_currency(#[trigger] prev[i], cs.last()) {
            prev
        } else {
            prev.push(cs.last())
        }
    }
}

/// The currencies of a sequence of entries.
pub open spec fn currencies_of(es: Seq<EntryView>) -> Seq<Currency> {
    es.map_values(|e: EntryView| e.currency)
}

/// Whether a sequence of entries forms a balanced transaction: at least
/// two positive entries in one currency whose debit and credit totals are
/// equal and fit in an `i128`.
pub open spec fn balanced_entries(es: Seq<EntryView>) -> bool {
    &&& es.len() >= 2
    &&& all_positive(es)
    &&& all_in_currency(es, es[0].currency)
    &&& side_sum(es, DebitOrCredit::Debit) == side_sum(es, DebitOrCredit::Credit)
    &&& fits_i128(side_sum(es, DebitOrCredit::Debit))
}

/// With one currency and positive amounts, the running total is the
/// plain sum, or an overflow exactly when the sum leaves `i128`.
pub proof fn lemma_side_total_single_currency(es: Seq<EntryView>, dir: DebitOrCredit, cur: Currency)
    requires
        all_in_currency(es, cur),
        all_positive(es),
    ensures
        side_sum(es, dir) >= 0,
        fits_i128(side_sum(es, dir)) ==> side_total(es, dir, cur) == Ok::<int, MoneyError>(side_sum(es, dir)),
        !fits_i128(side_sum(es, dir)) ==> side_total(es, dir, cur) == Err::<int, MoneyError>(MoneyError::Overflow),
    decreases es.len(),
{
    if es.len() > 0 {
        let p = es.drop_last();
        assert(all_in_currency(p, cur)) by {
            assert forall|i: int| 0 <= i < p.len() implies same_currency(#[trigger] p[i].currency, cur) by {
                assert(p[i] == es[i]);
            }
        }
        assert(all_positive(p)) by {
            assert forall|i: int| 0 <= i < p.len() implies #[trigger] p[i].amount > 0 by {
                assert(p[i] == es[i]);
            }
        }
        lemma_side_total_single_currency(p, dir, cur);
        assert(es.last() == es[es.len() - 1]);
        if !fits_i128(side_sum(p, dir)) {
            // the running total already overflowed
        }
    }
}

/// Adding up `vs` in order with `i128` arithmetic: `None` as soon as a
/// running total leaves the range of `i128`.
pub open spec fn checked_fold(vs: Seq<int>) -> Option<int>
    decreases vs.len(),
{
    if vs.len() == 0 {
        Some(0)
    } else {
        match checked_fold(vs.drop_last()) {
            None => None,
            Some(acc) => if fits_i128(acc + vs.last()) {
                Some(acc + vs.last())
            } else {
                None
            },
        }
    }
}

/// The entries in direction `dir`, in order.
pub open spec fn entries_in_direction(es: Seq<EntryView>, dir: DebitOrCredit) -> Seq<EntryView>
    decreases es.len(),
{
    if es.len() == 0 {
        Seq::empty()
    } else {
        let prev = entries_in_direction(es.drop_last(), dir);
        if es.last().direction == dir {
            prev.push(es.last())
        } else {
            prev
        }
    }
}

/// The signed amounts of the entries for account `a`, in order.
pub open spec fn signed_values_for_account(es: Seq<EntryView>, a: AccountView) -> Seq<int>
    decreases es.len(),
{
    if es.len() == 0 {
        Seq::empty()
    } else {
        let prev = signed_values_for_account(es.drop_last(), a);
        if es.last().account == a {
            prev.push(signed_value(es.last()))
        } else {
            prev
        }
    }
}

/// Whether some entry is for account `a`.
pub open spec fn involves(es: Seq<EntryView>, a: AccountView) -> bool {
    exists|i: int| 0 <= i < es.len() && #[trigger] es[i].account == a
}

/// The currency of the first entry for account `a`.
pub open spec fn first_currency_for(es: Seq<EntryView>, a: AccountView) -> Currency
    decreases es.len(),
{
    if es.len() == 0 {
        arbitrary()
    } else if involves(es.drop_last(), a) {
        first_currency_for(es.drop_last(), a)
    } else {
        es.last().currency
    }
}

/// One more entry: how the per-account values, involvement and first
/// currency extend.
pub proof fn lemma_account_step(es: Seq<EntryView>, i: int, a: AccountView)
    requires
        0 <= i < es.len(),
    ensures
        ({
            let p = es.subrange(0, i);
            let n = es.subrange(0, i + 1);
            &&& signed_values_for_account(n, a) == (if es[i].account == a {
                signed_values_for_account(p, a).push(signed_value(es[i]))
            } else {
                signed_values_for_account(p, a)
            })
            &&& involves(n, a) == (involves(p, a) || es[i].account == a)
            &&& involves(n, a) ==> first_currency_for(n, a) == (if involves(p, a) {
                first_currency_for(p, a)
            } else {
                es[i].currency
            })
        }),
{
    let p = es.subrange(0, i);
    let n = es.subrange(0, i + 1);
    assert(n.drop_last() =~= p);
    assert(n.last() == es[i]);
    if involves(n, a) && !involves(p, a) {
        let k = choose|k: int| 0 <= k < n.len() && #[trigger] n[k].account == a;
        if k < i {
            assert(p[k] == n[k]);
        }
    }
    if involves(p, a) {
        let k = choose|k: int| 0 <= k < p.len() && #[trigger] p[k].account == a;
        assert(n[k] == p[k]);
    }
    if es[i].account == a {
        assert(n[i] == es[i]);
    }
}

/// The values of a prefix are a prefix of the values of the whole.
pub proof fn lemma_values_prefix(es: Seq<EntryView>, k: int, a: AccountView)
    requires
        0 <= k <= es.len(),
    ensures
        signed_values_for_account(es, a).len() >= signed_values_for_account(es.subrange(0, k), a).len(),
        signed_values_for_account(es, a).subrange(0, signed_values_for_account(es.subrange(0, k), a).len() as int)
            == signed_values_for_account(es.subrange(0, k), a),
    decreases es.len() - k,
{
    if k == es.len() {
        assert(es.subrange(0, k) =~= es);
        assert(signed_values_for_account(es, a).subrange(0, signed_values_for_account(es, a).len() as int) =~= signed_values_for_account(es, a));
    } else {
        lemma_values_prefix(es, k + 1, a);
        lemma_account_step(es, k, a);
        let p = signed_values_for_account(es.subrange(0, k), a);
        let n = signed_values_for_account(es.subrange(0, k + 1), a);
        let w = signed_values_for_account(es, a);
        assert(w.subrange(0, p.len() as int) =~= n.subrange(0, p.len() as int));
    }
}

/// The views of a sequence of entry references.
pub open spec fn ref_views(es: Seq<&Entry>) -> Seq<EntryView> {
    es.map_values(|e: &Entry| e@)
}

/// Once a running total overflows, it stays overflowed: a fold that fails
/// on a prefix fails on the whole.
pub proof fn lemma_fold_none_sticky(prefix: Seq<int>, whole: Seq<int>)
    requires
        whole.len() >= prefix.len(),
        whole.subrange(0, prefix.len() as int) == prefix,
        checked_fold(prefix) is None,
    ensures
        checked_fold(whole) is None,
    decreases whole.len(),
{
    if whole.len() > prefix.len() {
        assert(whole.drop_last().subrange(0, prefix.len() as int) =~= prefix);
        lemma_fold_none_sticky(prefix, whole.drop_last());
    } else {
        assert(whole =~= prefix);
    }
}

/// The running totals of one direction, in one currency.
pub fn sum_entries_by_direction(entries: &[Entry], direction: DebitOrCredit) -> (r: Result<Money, MoneyError>)
    requires
        entries@.len() > 0,
    ensures
        match side_total(entry_views(entries@), direction, entries@[0]@.currency) {
            Ok(v) => r matches Ok(m) && m.value() == v && m.spec_currency() == entries@[0]@.currency,
            Err(e) => r == Err::<Money, MoneyError>(e),
        },
{
    let currency = entries[0].amount().currency();
    let mut total = Money::from_minor(0, currency);
    let mut i: usize = 0;
    while i < entries.len()
        invariant
            i <= entries@.len(),
            entries@.len() > 0,
            currency == entries@[0]@.currency,
            side_total(entry_views(entries@.subrange(0, i as int)), direction, currency) == Ok::<int, MoneyError>(total.value()),
            total.spec_currency() == currency,
        decreases entries@.len() - i,
    {
        let ghost prefix = entry_views(entries@.subrange(0, i as int));
        let ghost next = entry_views(entries@.subrange(0, i + 1));
        assert(next.drop_last() =~= prefix);
        assert(next.last() == entries@[i as int]@);
        let e = &entries[i];
        if e.direction() == direction {
            match total.checked_add(e.amount()) {
                Ok(t) => total = t,
                Err(err) => {
                    proof {
                        assert(entry_views(entries@).subrange(0, i + 1) =~= next);
                        lemma_side_total_err_sticky(next, entry_views(entries@), direction, currency);
                    }
                    return Err(err);
                },
            }
        }
        i = i + 1;
    }
    assert(entries@.subrange(0, i as int) =~= entries@);
    Ok(total)
}

/// A running total that fails on a prefix fails the same way on the whole.
pub proof fn lemma_side_total_err_sticky(prefix: Seq<EntryView>, whole: Seq<EntryView>, dir: DebitOrCredit, cur: Currency)
    requires
        whole.len() >= prefix.len(),
        whole.subrange(0, prefix.len() as int) == prefix,
        side_total(prefix, dir, cur) is Err,
    ensures
        side_total(whole, dir, cur) == side_total(prefix, dir, cur),
    decreases whole.len(),
{
    if whole.len() > prefix.len() {
        assert(whole.drop_last().subrange(0, prefix.len() as int) =~= prefix);
        lemma_side_total_err_sticky(prefix, whole.drop_last(), dir, cur);
    } else {
        assert(whole =~= prefix);
    }
}

/// The display text of a transaction's entry lines.
pub open spec fn entry_lines_text(es: Seq<EntryView>) -> Seq<char>
    decreases es.len(),
{
    if es.len() == 0 {
        Seq::empty()
    } else {
        entry_lines_text(es.drop_last()) + "  "@ + entry_text(es.last()) + "\n"@
    }
}

/// Whether every entry's currency has at most 38 decimal places.
pub open spec fn printable_entries(es: Seq<EntryView>) -> bool {
    forall|i: int| 0 <= i < es.len() ==> #[trigger] es[i].currency.spec_minor_units() <= 38
}

/// The mathematical content of a transaction.
pub struct TransactionView {
    /// The transaction date.
    pub date: DateView,
    /// The description.
    pub description: Seq<char>,
    /// The entries, in posting order.
    pub entries: Seq<EntryView>,
    /// Optional metadata.
    pub metadata: Option<Seq<char>>,
}

/// A validated, balanced double-entry transaction.
///
/// A `Transaction` is only made by `JournalEntry::post`, which checks that
/// it has at least two entries in one currency and that total debits equal
/// total credits; every value of this type satisfies that.
#[derive(Debug)]
pub struct Transaction {
    pub(crate) date: Date,
    pub(crate) description: String,
    pub(crate) entries: Vec<Entry>,
    pub(crate) metadata: Option<String>,
    pub(crate) attachments: Vec<SourceDocument>,
}

impl View for Transaction {
    type V = TransactionView;

    closed spec fn view(&self) -> TransactionView {
        TransactionView {
            date: self.date@,
            description: self.description@,
            entries: entry_views(self.entries@),
            metadata: match self.metadata {
                Some(m) => Some(m@),
                None => None,
            },
        }
    }
}

impl Transaction {
    #[verifier::type_invariant]
    spec fn inv(self) -> bool {
        balanced_entries(entry_views(self.entries@))
    }

    /// Assembles a transaction from entries already known to balance.
    pub(crate) fn from_parts(
        date: Date,
        description: String,
        entries: Vec<Entry>,
        metadata: Option<String>,
        attachments: Vec<SourceDocument>,
    ) -> (t: Transaction)
        requires
            balanced_entries(entry_views(entries@)),
        ensures
            t@ == (TransactionView {
                date: date@,
                description: description@,
                entries: entry_views(entries@),
                metadata: match metadata {
                    Some(m) => Some(m@),
                    None => None,
                },
            }),
    {
        Transaction { date, description, entries, metadata, attachments }
    }

    /// Every transaction is balanced.
    pub fn balanced(&self)
        ensures
            balanced_entries(self@.entries),
    {
        proof {
            use_type_invariant(self);
        }
    }

    /// Returns the transaction date.
    pub fn date(&self) -> (d: Date)
        ensures
            d@ == self@.date,
    {
        self.date
    }

    /// Returns the transaction description.
    pub fn description(&self) -> (s: &str)
        ensures
            s@ == self@.description,
    {
        self.description.as_str()
    }

    /// Returns all entries in this transaction.
    pub fn entries(&self) -> (es: &[Entry])
        ensures
            entry_views(es@) == self@.entries,
            balanced_entries(self@.entries),
    {
        proof {
            use_type_invariant(self);
        }
        self.entries.as_slice()
    }

    /// Returns the debit entries, in order.
    pub fn debit_entries(&self) -> (r: Vec<&Entry>)
        ensures
            ref_views(r@) == entries_in_direction(self@.entries, DebitOrCredit::Debit),
    {
        self.entries_with(DebitOrCredit::Debit)
    }

    /// Returns the credit entries, in order.
    pub fn credit_entries(&self) -> (r: Vec<&Entry>)
        ensures
            ref_views(r@) == entries_in_direction(self@.entries, DebitOrCredit::Credit),
    {
        self.entries_with(DebitOrCredit::Credit)
    }

    fn entries_with(&self, dir: DebitOrCredit) -> (r: Vec<&Entry>)
        ensures
            ref_views(r@) == entries_in_direction(self@.entries, dir),
    {
        let mut r: Vec<&Entry> = Vec::new();
        let mut i: usize = 0;
        while i < self.entries.len()
            invariant
                i <= self.entries@.len(),
                ref_views(r@) == entries_in_direction(entry_views(self.entries@.subrange(0, i as int)), dir),
            decreases self.entries@.len() - i,
        {
            let e = &self.entries[i];
            assert(entry_views(self.entries@.subrange(0, i + 1)).drop_last() =~= entry_views(
                self.entries@.subrange(0, i as int),
            ));
            if e.direction() == dir {
                r.push(e);
            }
            i = i + 1;
            assert(ref_views(r@) =~= entries_in_direction(
                entry_views(self.entries@.subrange(0, i as int)),
                dir,
            ));
        }
        assert(self.entries@.subrange(0, i as int) =~= self.entries@);
        r
    }

    /// Returns the total amount of the transaction: the sum of its debits,
    /// which equals the sum of its credits.
    pub fn total(&self) -> (r: Result<Money, MoneyError>)
        ensures
            r matches Ok(m) && m.value() == side_sum(self@.entries, DebitOrCredit::Debit)
                && m.value() == side_sum(self@.entries, DebitOrCredit::Credit)
                && m.spec_currency() == self@.entries[0].currency,
    {
        proof {
            use_type_invariant(self);
            lemma_side_total_single_currency(self@.entries, DebitOrCredit::Debit, self@.entries[0].currency);
        }
        sum_entries_by_direction(self.entries.as_slice(), DebitOrCredit::Debit)
    }

    /// Returns `true` if this transaction involves the given account.
    pub fn involves_account(&self, account: &Account) -> (b: bool)
        ensures
            b == involves(self@.entries, account@),
    {
        let mut i: usize = 0;
        while i < self.entries.len()
            invariant
                i <= self.entries@.len(),
                forall|j: int| 0 <= j < i ==> self@.entries[j].account != account@,
            decreases self.entries@.len() - i,
        {
            if self.entries[i].account() == account {
                assert(self@.entries[i as int].account == account@);
                return true;
            }
            i = i + 1;
        }
        false
    }

    /// The net amount for `account` in this transaction, signed by the
    /// normal balance of each entry's account, or `None` when the account
    /// is not involved. Fails with `Overflow` when a running total leaves
    /// the range of `i128`.
    pub fn amount_for_account(&self, account: &Account) -> (r: Result<Option<Money>, MoneyError>)
        ensures
            !involves(self@.entries, account@) ==> r == Ok::<Option<Money>, MoneyError>(None),
            involves(self@.entries, account@) ==> match checked_fold(
                signed_values_for_account(self@.entries, account@),
            ) {
                None => r == Err::<Option<Money>, MoneyError>(MoneyError::Overflow),
                Some(v) => r matches Ok(Some(m)) && m.value() == v && m.spec_currency()
                    == first_currency_for(self@.entries, account@),
            },
    {
        let ghost es = self@.entries;
        let mut total = Amount::zero();
        let mut currency: Option<Currency> = None;
        let mut i: usize = 0;
        assert(es.subrange(0, 0) =~= Seq::<EntryView>::empty());
        while i < self.entries.len()
            invariant
                i <= es.len(),
                es == entry_views(self.entries@),
                checked_fold(signed_values_for_account(es.subrange(0, i as int), account@)) == Some(total@),
                currency is None <==> !involves(es.subrange(0, i as int), account@),
                currency matches Some(c) ==> c == first_currency_for(es.subrange(0, i as int), account@),
            decreases es.len() - i,
        {
            proof {
                lemma_account_step(es, i as int, account@);
            }
            let e = &self.entries[i];
            assert(e@ == es[i as int]);
            if e.account() == account {
                let s = e.signed_amount();
                let ghost vs = signed_values_for_account(es.subrange(0, i as int), account@);
                assert(vs.push(s@).drop_last() =~= vs);
                match total.checked_add(s) {
                    Some(t) => total = t,
                    None => {
                        proof {
                            assert(es.subrange(0, es.len() as int) =~= es);
                            lemma_values_prefix(es, i + 1, account@);
                            lemma_fold_none_sticky(
                                signed_values_for_account(es.subrange(0, i + 1), account@),
                                signed_values_for_account(es, account@),
                            );
                        }
                        return Err(MoneyError::Overflow);
                    },
                }
                if currency.is_none() {
                    currency = Some(e.amount().currency());
                }
            }
            i = i + 1;
        }
        assert(es.subrange(0, i as int) =~= es);
        match currency {
            Some(c) => Ok(Some(Money::new(total, c))),
            None => Ok(None),
        }
    }

    /// The display form: a `Transaction [<date>]: <description>` line, then
    /// one indented line per entry.
    pub fn to_string(&self) -> (s: String)
        requires
            printable_entries(self@.entries),
        ensures
            s@ == "Transaction ["@ + date_text(self@.date.year, self@.date.month, self@.date.day) + "]: "@
                + self@.description + "\n"@ + entry_lines_text(self@.entries),
    {
        let ghost es = self@.entries;
        let mut s = "Transaction [".to_string();
        let d = self.date.to_string();
        s.append(d.as_str());
        s.append("]: ");
        s.append(self.description.as_str());
        s.append("\n");
        let ghost head = s@;
        let mut i: usize = 0;
        while i < self.entries.len()
            invariant
                i <= es.len(),
                es == entry_views(self.entries@),
                printable_entries(es),
                s@ == head + entry_lines_text(es.subrange(0, i as int)),
            decreases es.len() - i,
        {
            assert(es.subrange(0, i + 1).drop_last() =~= es.subrange(0, i as int));
            s.append("  ");
            assert(self.entries@[i as int]@ == es[i as int]);
            let t = self.entries[i].to_string();
            s.append(t.as_str());
            s.append("\n");
            i = i + 1;
        }
        assert(es.subrange(0, i as int) =~= es);
        s
    }

    /// Returns optional metadata attached to this transaction.
    pub fn metadata(&self) -> (m: Option<&str>)
        ensures
            match m {
                Some(t) => self@.metadata == Some(t@),
                None => self@.metadata is None,
            },
    {
        match &self.metadata {
            Some(t) => Some(t.as_str()),
            None => None,
        }
    }
}

impl Clone for Transaction {
    fn clone(&self) -> (r: Transaction)
        ensures
            r@ == self@,
    {
        proof {
            use_type_invariant(self);
        }
        let mut entries: Vec<Entry> = Vec::new();
        let mut i: usize = 0;
        while i < self.entries.len()
            invariant
                i <= self.entries@.len(),
                entry_views(entries@) == entry_views(self.entries@).subrange(0, i as int),
            decreases self.entries@.len() - i,
        {
            let ghost old_e = entries@;
            entries.push(self.entries[i].clone());
            assert(entry_views(entries@) =~= entry_views(old_e).push(self.entries@[i as int]@));
            assert(entry_views(self.entries@).subrange(0, i + 1) =~= entry_views(self.entries@).subrange(
                0,
                i as int,
            ).push(self.entries@[i as int]@));
            i = i + 1;
        }
        assert(entry_views(self.entries@).subrange(0, i as int) =~= entry_views(self.entries@));
        let mut attachments: Vec<SourceDocument> = Vec::new();
        let mut j: usize = 0;
        while j < self.attachments.len()
            decreases self.attachments@.len() - j,
        {
            attachments.push(self.attachments[j].clone());
            j = j + 1;
        }
        Transaction {
            date: self.date,
            description: self.description.clone(),
            entries,
            metadata: match &self.metadata {
                Some(m) => Some(m.clone()),
                None => None,
            },
            attachments,
        }
    }
}

} // verus!
