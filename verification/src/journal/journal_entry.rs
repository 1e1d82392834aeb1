//! A builder that accumulates entries and posts them as a balanced transaction.
use vstd::prelude::*;
use crate::types::account::Account;
use crate::types::amount::{fits_i128, Amount};
use crate::types::currency::Currency;
use crate::types::date::{Date, DateView};
use crate::types::debit_credit::DebitOrCredit;
use crate::types::document::SourceDocument;
use crate::types::entry::{entry_outcome_ok, Entry, EntryError, EntryView};
use crate::types::money::{same_currency, Money, MoneyError};
use super::transaction::{
    all_in_currency, all_positive, balanced_entries, currencies_of, distinct_currencies,
    entry_views, lemma_side_total_single_currency, side_sum, side_total, sum_entries_by_direction,
    Transaction, TransactionError, TransactionView,
};

verus! {

broadcast use crate::types::amount::lemma_amount_ext, crate::types::amount::lemma_amount_range;

/// The mathematical content of a journal entry under construction.
pub struct JournalView {
    /// The transaction date.
    pub date: DateView,
    /// The description.
    pub description: Seq<char>,
    /// The entries added so far, in order.
    pub entries: Seq<EntryView>,
    /// Optional metadata.
    pub metadata: Option<Seq<char>>,
    /// How many source documents are attached.
    pub attachment_count: nat,
}

/// Adding one entry to a journal view.
pub open spec fn with_entry(j: JournalView, e: EntryView) -> JournalView {
    JournalView { entries: j.entries.push(e), ..j }
}

/// What the debit or credit total of a journal entry is: the running total
/// of that side in the currency of the first entry.
pub open spec fn journal_total(es: Seq<EntryView>, dir: DebitOrCredit) -> Result<int, TransactionError> {
    if es.len() == 0 {
        Err(TransactionError::NoEntries)
    } else {
        match side_total(es, dir, es[0].currency) {
            Ok(v) => Ok(v),
            Err(e) => Err(TransactionError::Money(e)),
        }
    }
}

/// A builder for balanced transactions: entries are accumulated and the
/// balance is checked when [`post`](Self::post) is called.
pub struct JournalEntry {
    date: Date,
    description: String,
    entries: Vec<Entry>,
    metadata: Option<String>,
    attachments: Vec<SourceDocument>,
}

impl View for JournalEntry {
    type V = JournalView;

    closed spec fn view(&self) -> JournalView {
        JournalView {
            date: self.date@,
            description: self.description@,
            entries: entry_views(self.entries@),
            metadata: match self.metadata {
                Some(m) => Some(m@),
                None => None,
            },
            attachment_count: self.attachments@.len(),
        }
    }
}

/// Every entry of a slice has a positive amount.
fn entries_positive(es: &[Entry])
    ensures
        all_positive(entry_views(es@)),
{
    let mut i: usize = 0;
    while i < es.len()
        invariant
            i <= es@.len(),
            forall|j: int| 0 <= j < i ==> #[trigger] es@[j]@.amount > 0,
        decreases es@.len() - i,
    {
        es[i].positive();
        i = i + 1;
    }
}

impl JournalEntry {
    /// Creates a new journal entry with the given date and description.
    pub fn new(date: Date, description: &str) -> (j: JournalEntry)
        ensures
            j@ == (JournalView {
                date: date@,
                description: description@,
                entries: Seq::empty(),
                metadata: None,
                attachment_count: 0,
            }),
    {
        let j = JournalEntry {
            date,
            description: description.to_owned(),
            entries: Vec::new(),
            metadata: None,
            attachments: Vec::new(),
        };
        assert(entry_views(j.entries@) =~= Seq::<EntryView>::empty());
        j
    }

    /// Attaches metadata to this journal entry.
    pub fn with_metadata(self, metadata: &str) -> (j: JournalEntry)
        ensures
            j@ == (JournalView { metadata: Some(metadata@), ..self@ }),
    {
        let mut j = self;
        j.metadata = Some(metadata.to_owned());
        j
    }

    /// Attaches a source document to this journal entry.
    pub fn attach(self, document: SourceDocument) -> (j: JournalEntry)
        ensures
            j@ == (JournalView { attachment_count: self@.attachment_count + 1, ..self@ }),
    {
        let mut j = self;
        j.attachments.push(document);
        j
    }

    /// Adds a pre-constructed entry.
    pub fn entry(self, entry: Entry) -> (j: JournalEntry)
        ensures
            j@ == with_entry(self@, entry@),
    {
        let mut j = self;
        let ghost old_entries = j.entries@;
        j.entries.push(entry);
        assert(entry_views(j.entries@) =~= entry_views(old_entries).push(entry@));
        j
    }

    /// Adds a debit entry for the given account and amount; fails when the
    /// amount is zero or negative.
    pub fn debit(self, account: &Account, amount: Money) -> (r: Result<JournalEntry, EntryError>)
        ensures
            amount.value() == 0 ==> r == Err::<JournalEntry, EntryError>(EntryError::ZeroAmount),
            amount.value() < 0 ==> r == Err::<JournalEntry, EntryError>(EntryError::NegativeAmount { amount: amount.spec_amount() }),
            amount.value() > 0 ==> (r matches Ok(j) && exists|e: EntryView| entry_outcome_ok(account@, amount, DebitOrCredit::Debit, None, e) && j@ == with_entry(self@, e)),
    {
        let e = Entry::debit(account.clone(), amount)?;
        Ok(self.entry(e))
    }

    /// Adds a credit entry for the given account and amount; fails when the
    /// amount is zero or negative.
    pub fn credit(self, account: &Account, amount: Money) -> (r: Result<JournalEntry, EntryError>)
        ensures
            amount.value() == 0 ==> r == Err::<JournalEntry, EntryError>(EntryError::ZeroAmount),
            amount.value() < 0 ==> r == Err::<JournalEntry, EntryError>(EntryError::NegativeAmount { amount: amount.spec_amount() }),
            amount.value() > 0 ==> (r matches Ok(j) && exists|e: EntryView| entry_outcome_ok(account@, amount, DebitOrCredit::Credit, None, e) && j@ == with_entry(self@, e)),
    {
        let e = Entry::credit(account.clone(), amount)?;
        Ok(self.entry(e))
    }

    /// Adds a debit entry with a memo; fails when the amount is zero or
    /// negative.
    pub fn debit_with_memo(self, account: &Account, amount: Money, memo: &str) -> (r: Result<JournalEntry, EntryError>)
        ensures
            amount.value() == 0 ==> r == Err::<JournalEntry, EntryError>(EntryError::ZeroAmount),
            amount.value() < 0 ==> r == Err::<JournalEntry, EntryError>(EntryError::NegativeAmount { amount: amount.spec_amount() }),
            amount.value() > 0 ==> (r matches Ok(j) && exists|e: EntryView| entry_outcome_ok(account@, amount, DebitOrCredit::Debit, Some(memo@), e) && j@ == with_entry(self@, e)),
    {
        let e = Entry::debit_with_memo(account.clone(), amount, memo)?;
        Ok(self.entry(e))
    }

    /// Adds a credit entry with a memo; fails when the amount is zero or
    /// negative.
    pub fn credit_with_memo(self, account: &Account, amount: Money, memo: &str) -> (r: Result<JournalEntry, EntryError>)
        ensures
            amount.value() == 0 ==> r == Err::<JournalEntry, EntryError>(EntryError::ZeroAmount),
            amount.value() < 0 ==> r == Err::<JournalEntry, EntryError>(EntryError::NegativeAmount { amount: amount.spec_amount() }),
            amount.value() > 0 ==> (r matches Ok(j) && exists|e: EntryView| entry_outcome_ok(account@, amount, DebitOrCredit::Credit, Some(memo@), e) && j@ == with_entry(self@, e)),
    {
        let e = Entry::credit_with_memo(account.clone(), amount, memo)?;
        Ok(self.entry(e))
    }

    /// Returns the accumulated entries.
    pub fn entries(&self) -> (es: &[Entry])
        ensures
            entry_views(es@) == self@.entries,
    {
        self.entries.as_slice()
    }

    /// Computes the total of all debit entries, in the currency of the first
    /// entry. Fails with `NoEntries` when there is no entry, and with a
    /// money error on a currency mismatch or overflow.
    pub fn total_debits(&self) -> (r: Result<Money, TransactionError>)
        ensures
            match journal_total(self@.entries, DebitOrCredit::Debit) {
                Ok(v) => r matches Ok(m) && m.value() == v && m.spec_currency() == self@.entries[0].currency,
                Err(e) => r == Err::<Money, TransactionError>(e),
            },
    {
        self.total_of(DebitOrCredit::Debit)
    }

    /// Computes the total of all credit entries, in the currency of the
    /// first entry. Fails with `NoEntries` when there is no entry, and with
    /// a money error on a currency mismatch or overflow.
    pub fn total_credits(&self) -> (r: Result<Money, TransactionError>)
        ensures
            match journal_total(self@.entries, DebitOrCredit::Credit) {
                Ok(v) => r matches Ok(m) && m.value() == v && m.spec_currency() == self@.entries[0].currency,
                Err(e) => r == Err::<Money, TransactionError>(e),
            },
    {
        self.total_of(DebitOrCredit::Credit)
    }

    fn total_of(&self, dir: DebitOrCredit) -> (r: Result<Money, TransactionError>)
        ensures
            match journal_total(self@.entries, dir) {
                Ok(v) => r matches Ok(m) && m.value() == v && m.spec_currency() == self@.entries[0].currency,
                Err(e) => r == Err::<Money, TransactionError>(e),
            },
    {
        if self.entries.len() == 0 {
            return Err(TransactionError::NoEntries);
        }
        match sum_entries_by_direction(self.entries.as_slice(), dir) {
            Ok(m) => Ok(m),
            Err(e) => Err(TransactionError::Money(e)),
        }
    }

    /// Returns whether total debits equal total credits; fails as the
    /// totals do.
    pub fn is_balanced(&self) -> (r: Result<bool, TransactionError>)
        ensures
            match journal_total(self@.entries, DebitOrCredit::Debit) {
                Err(e) => r == Err::<bool, TransactionError>(e),
                Ok(d) => match journal_total(self@.entries, DebitOrCredit::Credit) {
                    Err(e) => r == Err::<bool, TransactionError>(e),
                    Ok(c) => r == Ok::<bool, TransactionError>(d == c),
                },
            },
    {
        let debits = self.total_debits()?;
        let credits = self.total_credits()?;
        Ok(debits == credits)
    }

    /// Validates and posts this journal entry, producing a [`Transaction`].
    ///
    /// The entry must have at least two entries (`NoEntries`,
    /// `SingleEntry`), all in one currency (`CurrencyMismatch`, listing the
    /// distinct currencies in order of appearance), whose debit and credit
    /// totals fit in an `i128` (`Money(Overflow)`) and are equal
    /// (`Unbalanced`).
    pub fn post(self) -> (r: Result<Transaction, TransactionError>)
        ensures
            ({
                let es = self@.entries;
                let d = side_sum(es, DebitOrCredit::Debit);
                let c = side_sum(es, DebitOrCredit::Credit);
                &&& es.len() == 0 ==> r == Err::<Transaction, TransactionError>(TransactionError::NoEntries)
                &&& es.len() == 1 ==> r == Err::<Transaction, TransactionError>(TransactionError::SingleEntry)
                &&& es.len() >= 2 && !all_in_currency(es, es[0].currency) ==> (r matches Err(TransactionError::CurrencyMismatch { currencies })
                    && currencies@ == distinct_currencies(currencies_of(es)))
                &&& es.len() >= 2 && all_in_currency(es, es[0].currency) && (!fits_i128(d) || !fits_i128(c))
                    ==> r == Err::<Transaction, TransactionError>(TransactionError::Money(MoneyError::Overflow))
                &&& es.len() >= 2 && all_in_currency(es, es[0].currency) && fits_i128(d) && fits_i128(c) && d != c
                    ==> (r matches Err(TransactionError::Unbalanced { total_debits, total_credits })
                        && total_debits@ == d && total_credits@ == c)
                &&& es.len() >= 2 && all_in_currency(es, es[0].currency) && fits_i128(d) && d == c
                    ==> (r matches Ok(t) && t@ == (TransactionView {
                        date: self@.date,
                        description: self@.description,
                        entries: es,
                        metadata: self@.metadata,
                    }))
            }),
    {
        let ghost es = self@.entries;
        let n = self.entries.len();
        if n == 0 {
            return Err(TransactionError::NoEntries);
        }
        if n == 1 {
            return Err(TransactionError::SingleEntry);
        }
        entries_positive(self.entries.as_slice());
        let first = self.entries[0].amount().currency();
        let mut seen: Vec<Currency> = Vec::new();
        seen.push(first);
        let mut i: usize = 1;
        proof {
            let cs1 = currencies_of(es).subrange(0, 1);
            assert(cs1.drop_last() =~= Seq::<Currency>::empty());
            assert(cs1.last() == first);
            assert(distinct_currencies(cs1.drop_last()) =~= Seq::<Currency>::empty());
            assert(distinct_currencies(cs1) =~= seq![first]);
            assert(all_in_currency(es.subrange(0, 1), first));
        }
        while i < n
            invariant
                1 <= i <= n,
                n == es.len(),
                es == entry_views(self.entries@),
                first == es[0].currency,
                seen@ == distinct_currencies(currencies_of(es).subrange(0, i as int)),
                seen@.len() >= 1,
                seen@[0] == first,
                (seen@.len() == 1) == all_in_currency(es.subrange(0, i as int), first),
            decreases n - i,
        {
            let c = self.entries[i].amount().currency();
            let ghost cs = currencies_of(es).subrange(0, i + 1);
            assert(cs.drop_last() =~= currencies_of(es).subrange(0, i as int));
            assert(cs.last() == c);
            let mut found = false;
            let mut k: usize = 0;
            while k < seen.len()
                invariant
                    k <= seen@.len(),
                    found == exists|j: int| 0 <= j < k && same_currency(#[trigger] seen@[j], c),
                decreases seen@.len() - k,
            {
                if seen[k] == c {
                    found = true;
                }
                k = k + 1;
            }
            proof {
                let p = es.subrange(0, i as int);
                let q = es.subrange(0, i + 1);
                assert(q.drop_last() =~= p);
                if all_in_currency(q, first) {
                    assert(all_in_currency(p, first)) by {
                        assert forall|j: int| 0 <= j < p.len() implies same_currency(#[trigger] p[j].currency, first) by {
                            assert(q[j] == p[j]);
                        }
                    }
                }
                assert(q[i as int] == es[i as int]);
                if all_in_currency(p, first) && same_currency(c, first) {
                    assert(all_in_currency(q, first)) by {
                        assert forall|j: int| 0 <= j < q.len() implies same_currency(#[trigger] q[j].currency, first) by {
                            if j < i {
                                assert(q[j] == p[j]);
                            }
                        }
                    }
                }
                if seen@.len() == 1 && !same_currency(c, first) {
                    assert(!same_currency(seen@[0], c));
                }
            }
            if !found {
                seen.push(c);
            }
            i = i + 1;
        }
        assert(es.subrange(0, n as int) =~= es);
        assert(currencies_of(es).subrange(0, n as int) =~= currencies_of(es));
        if seen.len() > 1 {
            return Err(TransactionError::CurrencyMismatch { currencies: seen });
        }
        proof {
            lemma_side_total_single_currency(es, DebitOrCredit::Debit, first);
            lemma_side_total_single_currency(es, DebitOrCredit::Credit, first);
        }
        let total_debits = match sum_entries_by_direction(self.entries.as_slice(), DebitOrCredit::Debit) {
            Ok(m) => m,
            Err(e) => return Err(TransactionError::Money(e)),
        };
        let total_credits = match sum_entries_by_direction(self.entries.as_slice(), DebitOrCredit::Credit) {
            Ok(m) => m,
            Err(e) => return Err(TransactionError::Money(e)),
        };
        if total_debits != total_credits {
            return Err(TransactionError::Unbalanced {
                total_debits: total_debits.amount(),
                total_credits: total_credits.amount(),
            });
        }
        assert(balanced_entries(es));
        Ok(Transaction::from_parts(self.date, self.description, self.entries, self.metadata, self.attachments))
    }
}

} // verus!
