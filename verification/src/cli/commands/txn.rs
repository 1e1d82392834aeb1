//! Parsing of `bk txn post` entry arguments.
use vstd::prelude::*;
use crate::cli::db::PostEntryParams;
use crate::cli::error::CliError;
use crate::text::{
    i64_text_value, int_decimal, parse_i64, pow10, split_first, split_once_char, string_push,
    trim, trim_text, zeros,
};
use crate::types::currency::{currency_code_text, Currency};
use crate::error::BeanError;
use crate::journal::journal_entry::JournalEntry;
use crate::journal::transaction::{side_sum, Transaction, TransactionError};
use crate::types::account::Account;
use crate::types::date::{valid_ymd, Date, DateView};
use crate::types::debit_credit::DebitOrCredit;
use crate::types::entry::{EntryError, EntryView};
use crate::types::money::Money;

verus! {

/// Whether `v` is within the range of `i64`.
pub open spec fn fits_i64(v: int) -> bool {
    i64::MIN <= v <= i64::MAX
}

/// The fractional digits padded on the right with zeros to `width`
/// characters.
pub open spec fn pad_fraction(f: Seq<char>, width: nat) -> Seq<char> {
    if f.len() < width {
        f + zeros((width - f.len()) as nat)
    } else {
        f
    }
}

/// How an amount in major units reads as minor units with `mu` decimal
/// places: `Ok` with the value, or `Err` with whether the failure is a
/// usage error (else a validation error) and its message.
pub open spec fn amount_reading(s: Seq<char>, code: Seq<char>, mu: nat) -> Result<int, (bool, Seq<char>)> {
    let m = pow10(mu) as int;
    let too_large = (false, "amount '"@ + s + "' is too large"@);
    match split_first(s, '.') {
        Some((w, f)) => match i64_text_value(w) {
            None => Err((true, "invalid amount '"@ + s + "': cannot parse whole part"@)),
            Some(wv) => if vstd::utf8::encode_utf8(f).len() > mu {
                Err(
                    (
                        false,
                        "amount '"@ + s + "' has too many decimal places for "@ + code + " (max "@
                            + int_decimal(mu as int) + ")"@,
                    ),
                )
            } else {
                match i64_text_value(pad_fraction(f, mu)) {
                    None => Err((true, "invalid amount '"@ + s + "': cannot parse fractional part"@)),
                    Some(fv) => if fits_i64(wv * m) && fits_i64(wv * m + fv) {
                        Ok(wv * m + fv)
                    } else {
                        Err(too_large)
                    },
                }
            },
        },
        None => match i64_text_value(s) {
            None => Err((true, "invalid amount '"@ + s + "': not a valid number"@)),
            Some(wv) => if fits_i64(wv * m) {
                Ok(wv * m)
            } else {
                Err(too_large)
            },
        },
    }
}

/// Whether `e` is the usage error (or else the validation error) with
/// message `msg`.
pub open spec fn is_cli_error(e: CliError, usage: bool, msg: Seq<char>) -> bool {
    if usage {
        e matches CliError::Usage(t) && t@ == msg
    } else {
        e matches CliError::Validation(t) && t@ == msg
    }
}

/// Ten to the power `n`, for `n` up to 18.
fn pow10_i64(n: u8) -> (p: i64)
    requires
        n <= 18,
    ensures
        p == pow10(n as nat),
{
    let mut p: i64 = 1;
    let mut i: u8 = 0;
    while i < n
        invariant
            i <= n <= 18,
            p == pow10(i as nat),
        decreases n - i,
    {
        proof {
            crate::text::lemma_pow10_monotone((i + 1) as nat, 18);
            assert(pow10(18) == 1_000_000_000_000_000_000) by {
                reveal_with_fuel(pow10, 19);
            }
        }
        p = p * 10;
        i = i + 1;
    }
    p
}

/// Appends `s` to `out`.
fn push_str(out: &mut String, s: &str)
    ensures
        final(out)@ == old(out)@ + s@,
{
    out.append(s);
}

/// Parses an amount string to minor currency units. The input is always
/// read as major units: for a currency with two decimal places `50` and
/// `50.00` give `5000`, and `0.50` gives `50`.
pub fn parse_amount_to_minor(s: &str, currency: Currency) -> (r: Result<i64, CliError>)
    requires
        currency.spec_minor_units() <= 18,
    ensures
        match amount_reading(s@, currency_code_text(currency), currency.spec_minor_units() as nat) {
            Ok(v) => r == Ok::<i64, CliError>(v as i64),
            Err((usage, msg)) => r matches Err(e) && is_cli_error(e, usage, msg),
        },
{
    let minor_units = currency.minor_units();
    let multiplier = pow10_i64(minor_units);
    let ghost m = pow10(minor_units as nat) as int;
    match split_once_char(s, '.') {
        Some((whole_str, frac_str)) => {
            let whole = match parse_i64(whole_str) {
                Some(w) => w,
                None => {
                    let mut msg = "invalid amount '".to_string();
                    push_str(&mut msg, s);
                    push_str(&mut msg, "': cannot parse whole part");
                    return Err(CliError::Usage(msg));
                },
            };
            if frac_str.as_bytes().len() > minor_units as usize {
                let mut msg = "amount '".to_string();
                push_str(&mut msg, s);
                push_str(&mut msg, "' has too many decimal places for ");
                push_str(&mut msg, currency.code());
                push_str(&mut msg, " (max ");
                let mu = crate::text::i128_to_string(minor_units as i128);
                push_str(&mut msg, mu.as_str());
                push_str(&mut msg, ")");
                return Err(CliError::Validation(msg));
            }
            let mut padded = frac_str.to_owned();
            let flen = frac_str.unicode_len();
            assert(padded@ =~= frac_str@ + zeros(0));
            if flen < minor_units as usize {
                let mut k: usize = 0;
                while k < minor_units as usize - flen
                    invariant
                        flen < minor_units,
                        flen == frac_str@.len(),
                        k <= minor_units - flen,
                        padded@ == frac_str@ + zeros(k as nat),
                    decreases minor_units - flen - k,
                {
                    string_push(&mut padded, '0');
                    k = k + 1;
                    assert(padded@ =~= frac_str@ + zeros(k as nat));
                }
            }
            assert(padded@ == pad_fraction(frac_str@, minor_units as nat));
            assert(split_first(s@, '.') == Some((whole_str@, frac_str@)));
            assert(i64_text_value(whole_str@) == Some(whole as int));
            let frac = match parse_i64(padded.as_str()) {
                Some(f) => f,
                None => {
                    let mut msg = "invalid amount '".to_string();
                    push_str(&mut msg, s);
                    push_str(&mut msg, "': cannot parse fractional part");
                    return Err(CliError::Usage(msg));
                },
            };
            match whole.checked_mul(multiplier) {
                Some(w) => match w.checked_add(frac) {
                    Some(t) => Ok(t),
                    None => {
                        let mut msg = "amount '".to_string();
                        push_str(&mut msg, s);
                        push_str(&mut msg, "' is too large");
                        Err(CliError::Validation(msg))
                    },
                },
                None => {
                    let mut msg = "amount '".to_string();
                    push_str(&mut msg, s);
                    push_str(&mut msg, "' is too large");
                    Err(CliError::Validation(msg))
                },
            }
        },
        None => {
            let whole = match parse_i64(s) {
                Some(w) => w,
                None => {
                    let mut msg = "invalid amount '".to_string();
                    push_str(&mut msg, s);
                    push_str(&mut msg, "': not a valid number");
                    return Err(CliError::Usage(msg));
                },
            };
            match whole.checked_mul(multiplier) {
                Some(t) => Ok(t),
                None => {
                    let mut msg = "amount '".to_string();
                    push_str(&mut msg, s);
                    push_str(&mut msg, "' is too large");
                    Err(CliError::Validation(msg))
                },
            }
        },
    }
}

/// The pieces of an `account_code:amount[:memo]` argument: the code, the
/// amount text, and the memo text when a second colon is present.
pub open spec fn entry_pieces(s: Seq<char>) -> Option<(Seq<char>, Seq<char>, Option<Seq<char>>)> {
    match split_first(s, ':') {
        None => None,
        Some((code, rest)) => match split_first(rest, ':') {
            Some((amount, memo)) => Some((code, amount, Some(memo))),
            None => Some((code, rest, None)),
        },
    }
}

/// Parses an `account_code:amount[:memo]` argument into the code, the
/// amount in minor units (read as by `parse_amount_to_minor` after
/// trimming), and the memo when one is given and not empty.
pub fn parse_entry_arg(s: &str, currency: Currency) -> (r: Result<(String, i64, Option<String>), CliError>)
    requires
        currency.spec_minor_units() <= 18,
    ensures
        match entry_pieces(s@) {
            None => r matches Err(e) && is_cli_error(
                e,
                true,
                "invalid entry format '"@ + s@
                    + "': expected 'account_code:amount' or 'account_code:amount:memo'"@,
            ),
            Some((code, amount, memo)) => if code.len() == 0 {
                r matches Err(e) && is_cli_error(
                    e,
                    true,
                    "invalid entry format '"@ + s@ + "': account code is empty"@,
                )
            } else {
                match amount_reading(
                    trim_text(amount),
                    currency_code_text(currency),
                    currency.spec_minor_units() as nat,
                ) {
                    Ok(v) => r matches Ok((c, a, m)) && c@ == code && a == v && match memo {
                        Some(t) => if t.len() > 0 {
                            m matches Some(u) && u@ == t
                        } else {
                            m is None
                        },
                        None => m is None,
                    },
                    Err((usage, msg)) => r matches Err(e) && is_cli_error(e, usage, msg),
                }
            },
        },
{
    let (code, rest) = match split_once_char(s, ':') {
        Some(p) => p,
        None => {
            let mut msg = "invalid entry format '".to_string();
            push_str(&mut msg, s);
            push_str(&mut msg, "': expected 'account_code:amount' or 'account_code:amount:memo'");
            return Err(CliError::Usage(msg));
        },
    };
    let (amount_str, memo_str) = match split_once_char(rest, ':') {
        Some((a, m)) => (a, Some(m)),
        None => (rest, None),
    };
    if code.unicode_len() == 0 {
        let mut msg = "invalid entry format '".to_string();
        push_str(&mut msg, s);
        push_str(&mut msg, "': account code is empty");
        return Err(CliError::Usage(msg));
    }
    let minor = match parse_amount_to_minor(trim(amount_str), currency) {
        Ok(v) => v,
        Err(e) => return Err(e),
    };
    let memo = match memo_str {
        Some(m) => if m.unicode_len() > 0 {
            Some(m.to_owned())
        } else {
            None
        },
        None => None,
    };
    Ok((code.to_owned(), minor, memo))
}

/// The stored entry of a parsed `code:amount[:memo]` argument in the
/// given direction.
pub open spec fn post_entry_matches(e: PostEntryParams, arg: (String, i64, Option<String>), direction: Seq<char>) -> bool {
    &&& e.account_code == arg.0
    &&& e.direction@ == direction
    &&& e.amount == arg.1
    &&& e.memo == arg.2
    &&& e.tax_category is None
}

/// Appends the stored entries of parsed arguments in one direction.
fn push_post_entries(out: &mut Vec<PostEntryParams>, args: &[(String, i64, Option<String>)], direction: &str)
    ensures
        final(out)@.len() == old(out)@.len() + args@.len(),
        forall|i: int| 0 <= i < old(out)@.len() ==> final(out)@[i] == old(out)@[i],
        forall|i: int|
            0 <= i < args@.len() ==> post_entry_matches(
                #[trigger] final(out)@[old(out)@.len() + i],
                args@[i],
                direction@,
            ),
{
    let mut k: usize = 0;
    while k < args.len()
        invariant
            k <= args@.len(),
            out@.len() == old(out)@.len() + k,
            forall|i: int| 0 <= i < old(out)@.len() ==> out@[i] == old(out)@[i],
            forall|i: int|
                0 <= i < k ==> post_entry_matches(
                    #[trigger] out@[old(out)@.len() + i],
                    args@[i],
                    direction@,
                ),
        decreases args@.len() - k,
    {
        let (code, amount, memo) = &args[k];
        let m = match memo {
            Some(t) => Some(t.clone()),
            None => None,
        };
        out.push(
            PostEntryParams {
                account_code: code.clone(),
                direction: direction.to_string(),
                amount: *amount,
                memo: m,
                tax_category: None,
            },
        );
        k = k + 1;
    }
}

/// The entries stored for a post: the debit arguments in order, then the
/// credit arguments, each with its code, amount and memo.
pub fn build_post_entries(
    debits: &[(String, i64, Option<String>)],
    credits: &[(String, i64, Option<String>)],
) -> (r: Vec<PostEntryParams>)
    ensures
        r@.len() == debits@.len() + credits@.len(),
        forall|i: int| 0 <= i < debits@.len() ==> post_entry_matches(#[trigger] r@[i], debits@[i], "debit"@),
        forall|i: int|
            0 <= i < credits@.len() ==> post_entry_matches(
                #[trigger] r@[debits@.len() + i],
                credits@[i],
                "credit"@,
            ),
{
    let mut out: Vec<PostEntryParams> = Vec::new();
    push_post_entries(&mut out, debits, "debit");
    push_post_entries(&mut out, credits, "credit");
    assert forall|i: int| 0 <= i < debits@.len() implies post_entry_matches(out@[i], debits@[i], "debit"@) by {
        assert(out@[i] == out@[0 + i]);
    }
    out
}


/// What `chrono::NaiveDate::parse_from_str(s, "%Y-%m-%d")` gives for `s`:
/// the year, month and day it reads, or the text of its parse error.
pub uninterp spec fn ymd_parse_result(s: Seq<char>) -> Result<(int, int, int), Seq<char>>;

/// Reads a `YYYY-MM-DD` date with `chrono::NaiveDate::parse_from_str`.
/// Claims that the result is the one `ymd_parse_result` names, and that an
/// accepted text names a date of chrono's calendar range.
#[verifier::external_body]
fn parse_ymd(s: &str) -> (r: Result<(i32, u32, u32), String>)
    ensures
        match ymd_parse_result(s@) {
            Ok((y, m, d)) => r matches Ok((a, b, c)) && a == y && b == m && c == d,
            Err(t) => r matches Err(e) && e@ == t,
        },
        r matches Ok((a, b, c)) ==> valid_ymd(a as int, b as int, c as int),
{
    match chrono::NaiveDate::parse_from_str(s, "%Y-%m-%d") {
        Ok(d) => Ok((chrono::Datelike::year(&d), chrono::Datelike::month(&d), chrono::Datelike::day(&d))),
        Err(e) => Err(e.to_string()),
    }
}

/// Reads the date of a post. A text chrono refuses gives a validation
/// error naming the text and chrono's reason.
pub fn parse_txn_date(s: &str) -> (r: Result<Date, CliError>)
    ensures
        match ymd_parse_result(s@) {
            Ok((y, m, d)) => r matches Ok(t) && t@ == (DateView { year: y, month: m, day: d }),
            Err(t) => r matches Err(CliError::Validation(msg)) && msg@ == "invalid date '"@ + s@
                + "': "@ + t,
        },
{
    match parse_ymd(s) {
        Ok((y, m, d)) => Ok(Date::from_valid_ymd(y, m, d)),
        Err(e) => {
            let mut msg = "invalid date '".to_string();
            msg.append(s);
            msg.append("': ");
            msg.append(e.as_str());
            Err(CliError::Validation(msg))
        },
    }
}

/// The amounts of parsed entry arguments.
pub open spec fn arg_amounts(args: Seq<(String, i64, Option<String>)>) -> Seq<i64> {
    args.map_values(|a: (String, i64, Option<String>)| a.1)
}

/// The first amount that is not positive, if any.
pub open spec fn first_nonpositive(xs: Seq<i64>) -> Option<i64>
    decreases xs.len(),
{
    if xs.len() == 0 {
        None
    } else if xs[0] <= 0 {
        Some(xs[0])
    } else {
        first_nonpositive(xs.drop_first())
    }
}

/// The sum of a sequence of amounts.
pub open spec fn amount_sum(xs: Seq<i64>) -> int
    decreases xs.len(),
{
    if xs.len() == 0 {
        0
    } else {
        amount_sum(xs.drop_last()) + xs.last()
    }
}

/// The optional memo of a parsed argument, as text.
pub open spec fn memo_view(m: Option<String>) -> Option<Seq<char>> {
    match m {
        Some(t) => Some(t@),
        None => None,
    }
}

/// The journal entries of parsed arguments on one side, each for the
/// account at the same position, in `currency`.
pub open spec fn arg_entry_views(
    args: Seq<(String, i64, Option<String>)>,
    accounts: Seq<Account>,
    currency: Currency,
    dir: DebitOrCredit,
) -> Seq<EntryView> {
    Seq::new(
        args.len(),
        |i: int|
            EntryView {
                account: accounts[i]@,
                amount: args[i].1 as int,
                currency,
                direction: dir,
                memo: memo_view(args[i].2),
            },
    )
}

/// The first non-positive amount is the one at `i` when all before it are
/// positive.
proof fn lemma_first_nonpositive_at(xs: Seq<i64>, i: int)
    requires
        0 <= i < xs.len(),
        xs[i] <= 0,
        forall|k: int| 0 <= k < i ==> xs[k] > 0,
    ensures
        first_nonpositive(xs) == Some(xs[i]),
    decreases i,
{
    if i > 0 {
        lemma_first_nonpositive_at(xs.drop_first(), i - 1);
    }
}

/// No amount is non-positive when all are positive.
proof fn lemma_first_nonpositive_none(xs: Seq<i64>)
    requires
        forall|k: int| 0 <= k < xs.len() ==> xs[k] > 0,
    ensures
        first_nonpositive(xs) is None,
    decreases xs.len(),
{
    if xs.len() > 0 {
        lemma_first_nonpositive_none(xs.drop_first());
    }
}

/// The side sum of a concatenation is the sum of the side sums.
proof fn lemma_side_sum_concat(a: Seq<EntryView>, b: Seq<EntryView>, dir: DebitOrCredit)
    ensures
        side_sum(a + b, dir) == side_sum(a, dir) + side_sum(b, dir),
    decreases b.len(),
{
    if b.len() == 0 {
        assert(a + b =~= a);
    } else {
        lemma_side_sum_concat(a, b.drop_last(), dir);
        assert((a + b).drop_last() =~= a + b.drop_last());
    }
}

/// The entries of one side sum, on that side, to the sum of the amounts,
/// and to zero on the other side.
proof fn lemma_side_sum_args(
    args: Seq<(String, i64, Option<String>)>,
    accounts: Seq<Account>,
    currency: Currency,
    dir: DebitOrCredit,
    other: DebitOrCredit,
)
    requires
        dir != other,
    ensures
        side_sum(arg_entry_views(args, accounts, currency, dir), dir) == amount_sum(arg_amounts(args)),
        side_sum(arg_entry_views(args, accounts, currency, dir), other) == 0,
    decreases args.len(),
{
    let es = arg_entry_views(args, accounts, currency, dir);
    if args.len() > 0 {
        let shorter = args.drop_last();
        lemma_side_sum_args(shorter, accounts, currency, dir, other);
        assert(es.drop_last() =~= arg_entry_views(shorter, accounts, currency, dir));
        assert(arg_amounts(args).drop_last() =~= arg_amounts(shorter));
    } else {
        assert(arg_amounts(args) =~= Seq::<i64>::empty());
    }
}

/// A sum of positive `i64` amounts is positive and at most the count times
/// `i64::MAX`.
proof fn lemma_amount_sum_bounds(xs: Seq<i64>)
    requires
        forall|k: int| 0 <= k < xs.len() ==> xs[k] > 0,
    ensures
        0 <= amount_sum(xs) <= xs.len() * (i64::MAX as int),
    decreases xs.len(),
{
    if xs.len() > 0 {
        lemma_amount_sum_bounds(xs.drop_last());
        assert(xs.drop_last().len() * (i64::MAX as int) + (i64::MAX as int) == xs.len() * (i64::MAX as int)) by (nonlinear_arith)
            requires
                xs.drop_last().len() + 1 == xs.len(),
        ;
    }
}

/// Adds the entries of one side to a journal, in order, stopping at the
/// first amount that is not positive.
fn add_side(
    journal: JournalEntry,
    args: &[(String, i64, Option<String>)],
    accounts: &[Account],
    currency: Currency,
    dir: DebitOrCredit,
) -> (r: Result<JournalEntry, EntryError>)
    requires
        accounts@.len() == args@.len(),
    ensures
        match first_nonpositive(arg_amounts(args@)) {
            Some(a) => r matches Err(e) && (if a == 0 {
                e == EntryError::ZeroAmount
            } else {
                e matches EntryError::NegativeAmount { amount } && amount@ == a
            }),
            None => r matches Ok(j) && j@.entries == journal@.entries + arg_entry_views(
                args@,
                accounts@,
                currency,
                dir,
            ) && j@.date == journal@.date && j@.description == journal@.description
                && j@.metadata == journal@.metadata,
        },
{
    let ghost start = journal@;
    let mut j = journal;
    let mut i: usize = 0;
    while i < args.len()
        invariant
            i <= args@.len() == accounts@.len(),
            j@.entries == start.entries + arg_entry_views(args@, accounts@, currency, dir).take(
                i as int,
            ),
            j@.date == start.date,
            j@.description == start.description,
            j@.metadata == start.metadata,
            forall|k: int| 0 <= k < i ==> #[trigger] args@[k].1 > 0,
        decreases args@.len() - i,
    {
        let (_, minor, memo) = &args[i];
        let money = Money::from_minor(*minor as i128, currency);
        let ghost before = j@.entries;
        let step = match memo {
            Some(m) => match dir {
                DebitOrCredit::Debit => j.debit_with_memo(&accounts[i], money, m.as_str()),
                DebitOrCredit::Credit => j.credit_with_memo(&accounts[i], money, m.as_str()),
            },
            None => match dir {
                DebitOrCredit::Debit => j.debit(&accounts[i], money),
                DebitOrCredit::Credit => j.credit(&accounts[i], money),
            },
        };
        match step {
            Ok(next) => {
                j = next;
            },
            Err(e) => {
                proof {
                    assert(arg_amounts(args@)[i as int] == *minor);
                    lemma_first_nonpositive_at(arg_amounts(args@), i as int);
                }
                return Err(e);
            },
        }
        proof {
            let views = arg_entry_views(args@, accounts@, currency, dir);
            assert(views.take(i + 1) =~= views.take(i as int).push(views[i as int]));
        }
        i = i + 1;
    }
    proof {
        let views = arg_entry_views(args@, accounts@, currency, dir);
        assert(views.take(i as int) =~= views);
        lemma_first_nonpositive_none(arg_amounts(args@));
    }
    Ok(j)
}

/// The first non-positive amount of a concatenation: that of the first
/// part, else that of the second.
proof fn lemma_first_nonpositive_concat(a: Seq<i64>, b: Seq<i64>)
    ensures
        first_nonpositive(a + b) == (match first_nonpositive(a) {
            Some(x) => Some(x),
            None => first_nonpositive(b),
        }),
    decreases a.len(),
{
    if a.len() == 0 {
        assert(a + b =~= b);
    } else {
        lemma_first_nonpositive_concat(a.drop_first(), b);
        assert((a + b).drop_first() =~= a.drop_first() + b);
    }
}

/// Every amount is positive when none is the first non-positive one.
proof fn lemma_first_nonpositive_all(xs: Seq<i64>)
    requires
        first_nonpositive(xs) is None,
    ensures
        forall|k: int| 0 <= k < xs.len() ==> xs[k] > 0,
    decreases xs.len(),
{
    if xs.len() > 0 {
        lemma_first_nonpositive_all(xs.drop_first());
        assert forall|k: int| 0 <= k < xs.len() implies xs[k] > 0 by {
            if k > 0 {
                assert(xs[k] == xs.drop_first()[k - 1]);
            }
        }
    }
}

/// The journal of a post, validated before anything is stored: each debit,
/// then each credit, added for the account at its position in `currency`
/// (with its memo when it has one), then posted, so that an unbalanced
/// post is refused.
pub fn validate_post(
    date: Date,
    description: &str,
    metadata: Option<&str>,
    currency: Currency,
    debits: &[(String, i64, Option<String>)],
    debit_accounts: &[Account],
    credits: &[(String, i64, Option<String>)],
    credit_accounts: &[Account],
) -> (r: Result<Transaction, CliError>)
    requires
        debit_accounts@.len() == debits@.len(),
        credit_accounts@.len() == credits@.len(),
        debits@.len() + credits@.len() <= u32::MAX,
    ensures
        match first_nonpositive(arg_amounts(debits@) + arg_amounts(credits@)) {
            Some(a) => r matches Err(CliError::Bean(BeanError::Entry(e))) && (if a == 0 {
                e == EntryError::ZeroAmount
            } else {
                e matches EntryError::NegativeAmount { amount } && amount@ == a
            }),
            None => {
                let n = debits@.len() + credits@.len();
                let d = amount_sum(arg_amounts(debits@));
                let c = amount_sum(arg_amounts(credits@));
                &&& n == 0 ==> (r matches Err(
                    CliError::Bean(BeanError::Transaction(TransactionError::NoEntries)),
                ))
                &&& n == 1 ==> (r matches Err(
                    CliError::Bean(BeanError::Transaction(TransactionError::SingleEntry)),
                ))
                &&& n >= 2 && d != c ==> (r matches Err(
                    CliError::Bean(
                        BeanError::Transaction(TransactionError::Unbalanced { total_debits, total_credits }),
                    ),
                ) && total_debits@ == d && total_credits@ == c)
                &&& n >= 2 && d == c ==> (r matches Ok(t) && t@.date == date@ && t@.description
                    == description@ && t@.metadata == (match metadata {
                    Some(m) => Some(m@),
                    None => None,
                }) && t@.entries == arg_entry_views(
                    debits@,
                    debit_accounts@,
                    currency,
                    DebitOrCredit::Debit,
                ) + arg_entry_views(credits@, credit_accounts@, currency, DebitOrCredit::Credit))
            },
        },
{
    let ghost da = arg_amounts(debits@);
    let ghost ca = arg_amounts(credits@);
    let ghost dv = arg_entry_views(debits@, debit_accounts@, currency, DebitOrCredit::Debit);
    let ghost cv = arg_entry_views(credits@, credit_accounts@, currency, DebitOrCredit::Credit);
    proof {
        lemma_first_nonpositive_concat(da, ca);
    }
    let mut journal = JournalEntry::new(date, description);
    if let Some(m) = metadata {
        journal = journal.with_metadata(m);
    }
    let after_debits = match add_side(journal, debits, debit_accounts, currency, DebitOrCredit::Debit) {
        Ok(j) => j,
        Err(e) => {
            return Err(CliError::from(e));
        },
    };
    let after_credits = match add_side(
        after_debits,
        credits,
        credit_accounts,
        currency,
        DebitOrCredit::Credit,
    ) {
        Ok(j) => j,
        Err(e) => {
            return Err(CliError::from(e));
        },
    };
    proof {
        let es = after_credits@.entries;
        assert(es =~= dv + cv);
        lemma_first_nonpositive_all(da);
        lemma_first_nonpositive_all(ca);
        lemma_side_sum_concat(dv, cv, DebitOrCredit::Debit);
        lemma_side_sum_concat(dv, cv, DebitOrCredit::Credit);
        lemma_side_sum_args(debits@, debit_accounts@, currency, DebitOrCredit::Debit, DebitOrCredit::Credit);
        lemma_side_sum_args(credits@, credit_accounts@, currency, DebitOrCredit::Credit, DebitOrCredit::Debit);
        lemma_amount_sum_bounds(da);
        lemma_amount_sum_bounds(ca);
        assert(da.len() * (i64::MAX as int) <= (u32::MAX as int) * (i64::MAX as int)) by (nonlinear_arith)
            requires
                da.len() <= u32::MAX,
        ;
        assert(ca.len() * (i64::MAX as int) <= (u32::MAX as int) * (i64::MAX as int)) by (nonlinear_arith)
            requires
                ca.len() <= u32::MAX,
        ;
        if es.len() > 0 {
            assert forall|i: int| 0 <= i < es.len() implies crate::types::money::same_currency(
                #[trigger] es[i].currency,
                es[0].currency,
            ) by {
                assert(es[i].currency == currency);
                assert(es[0].currency == currency);
            }
        }
    }
    match after_credits.post() {
        Ok(t) => Ok(t),
        Err(e) => Err(CliError::from(e)),
    }
}

/// The `account_code=category` pairs read from `--tax` arguments, as
/// texts.
pub open spec fn tax_pair_views(ps: Seq<(String, String)>) -> Seq<(Seq<char>, Seq<char>)> {
    ps.map_values(|p: (String, String)| (p.0@, p.1@))
}

/// The first `--tax` argument that has no `=`, if any.
pub open spec fn first_bad_tax_arg(args: Seq<String>) -> Option<Seq<char>>
    decreases args.len(),
{
    if args.len() == 0 {
        None
    } else if split_first(args[0]@, '=') is None {
        Some(args[0]@)
    } else {
        first_bad_tax_arg(args.drop_first())
    }
}

/// Reads `--tax` arguments of the form `account_code=category` (split at
/// the first `=`); the first argument without `=` is refused.
pub fn parse_tax_args(args: &[String]) -> (r: Result<Vec<(String, String)>, CliError>)
    ensures
        match first_bad_tax_arg(args@) {
            Some(bad) => r matches Err(CliError::Usage(m)) && m@ == "invalid tax format '"@ + bad
                + "': expected 'account_code=category'"@,
            None => r matches Ok(ps) && ps@.len() == args@.len() && forall|i: int|
                0 <= i < args@.len() ==> split_first(args@[i]@, '=') == Some(
                    #[trigger] tax_pair_views(ps@)[i],
                ),
        },
{
    let mut out: Vec<(String, String)> = Vec::new();
    let mut i: usize = 0;
    assert(args@.subrange(0, args@.len() as int) =~= args@);
    while i < args.len()
        invariant
            i <= args@.len(),
            out@.len() == i,
            forall|k: int| 0 <= k < i ==> split_first(args@[k]@, '=') == Some(
                #[trigger] tax_pair_views(out@)[k],
            ),
            first_bad_tax_arg(args@) == first_bad_tax_arg(args@.subrange(i as int, args@.len() as int)),
        decreases args@.len() - i,
    {
        proof {
            let rest = args@.subrange(i as int, args@.len() as int);
            assert(rest.drop_first() =~= args@.subrange(i + 1, args@.len() as int));
            assert(rest[0] == args@[i as int]);
        }
        match split_once_char(args[i].as_str(), '=') {
            Some((code, category)) => {
                let ghost before = out@;
                out.push((code.to_string(), category.to_string()));
                assert forall|k: int| 0 <= k < i + 1 implies split_first(args@[k]@, '=') == Some(
                    #[trigger] tax_pair_views(out@)[k],
                ) by {
                    if k < i {
                        assert(tax_pair_views(out@)[k] == tax_pair_views(before)[k]);
                    }
                }
            },
            None => {
                let mut m = "invalid tax format '".to_string();
                m.append(args[i].as_str());
                m.append("': expected 'account_code=category'");
                return Err(CliError::Usage(m));
            },
        }
        i = i + 1;
    }
    proof {
        assert(args@.subrange(i as int, args@.len() as int) =~= Seq::<String>::empty());
    }
    Ok(out)
}

/// The category the last `--tax` pair for `code` names, if any.
pub open spec fn explicit_tax(pairs: Seq<(Seq<char>, Seq<char>)>, code: Seq<char>) -> Option<Seq<char>>
    decreases pairs.len(),
{
    if pairs.len() == 0 {
        None
    } else if pairs.last().0 == code {
        Some(pairs.last().1)
    } else {
        explicit_tax(pairs.drop_last(), code)
    }
}

/// The views of an optional text.
pub open spec fn opt_text(o: Option<String>) -> Option<Seq<char>> {
    match o {
        Some(t) => Some(t@),
        None => None,
    }
}

/// The tax category of an entry: the explicit `--tax` category of its
/// account (the last one given wins), else the account's default.
pub open spec fn resolved_tax(
    pairs: Seq<(Seq<char>, Seq<char>)>,
    code: Seq<char>,
    default: Option<Seq<char>>,
) -> Option<Seq<char>> {
    match explicit_tax(pairs, code) {
        Some(c) => Some(c),
        None => default,
    }
}

/// Finds the category of the last pair for `code`.
fn find_explicit_tax(pairs: &[(String, String)], code: &str) -> (r: Option<String>)
    ensures
        opt_text(r) == explicit_tax(tax_pair_views(pairs@), code@),
{
    let mut i: usize = pairs.len();
    assert(pairs@.take(pairs@.len() as int) =~= pairs@);
    while i > 0
        invariant
            i <= pairs@.len(),
            explicit_tax(tax_pair_views(pairs@), code@) == explicit_tax(
                tax_pair_views(pairs@.take(i as int)),
                code@,
            ),
        decreases i,
    {
        let ghost prefix = tax_pair_views(pairs@.take(i as int));
        proof {
            assert(prefix.drop_last() =~= tax_pair_views(pairs@.take(i - 1)));
            assert(prefix.last() == (pairs@[i - 1].0@, pairs@[i - 1].1@));
        }
        if crate::text::str_eq(pairs[i - 1].0.as_str(), code) {
            return Some(pairs[i - 1].1.clone());
        }
        i = i - 1;
    }
    proof {
        assert(tax_pair_views(pairs@.take(0)) =~= Seq::<(Seq<char>, Seq<char>)>::empty());
    }
    None
}

/// Gives every entry its tax category: an explicit `--tax` category for its
/// account wins over the account's default (`defaults` holds the default of
/// each entry's account, in order); nothing else changes.
pub fn apply_tax_categories(
    entries: &mut Vec<PostEntryParams>,
    pairs: &[(String, String)],
    defaults: &[Option<String>],
)
    requires
        old(entries)@.len() == defaults@.len(),
    ensures
        final(entries)@.len() == old(entries)@.len(),
        forall|i: int|
            0 <= i < old(entries)@.len() ==> {
                let e = #[trigger] final(entries)@[i];
                let o = old(entries)@[i];
                &&& e.account_code == o.account_code
                &&& e.direction == o.direction
                &&& e.amount == o.amount
                &&& e.memo == o.memo
                &&& opt_text(e.tax_category) == resolved_tax(
                    tax_pair_views(pairs@),
                    o.account_code@,
                    opt_text(defaults@[i]),
                )
            },
{
    let ghost start = entries@;
    let mut i: usize = 0;
    while i < entries.len()
        invariant
            i <= entries@.len() == start.len() == defaults@.len(),
            forall|k: int| i <= k < entries@.len() ==> entries@[k] == start[k],
            forall|k: int|
                0 <= k < i ==> {
                    let e = #[trigger] entries@[k];
                    let o = start[k];
                    &&& e.account_code == o.account_code
                    &&& e.direction == o.direction
                    &&& e.amount == o.amount
                    &&& e.memo == o.memo
                    &&& opt_text(e.tax_category) == resolved_tax(
                        tax_pair_views(pairs@),
                        o.account_code@,
                        opt_text(defaults@[k]),
                    )
                },
        decreases entries@.len() - i,
    {
        let explicit = find_explicit_tax(pairs, entries[i].account_code.as_str());
        let category = match explicit {
            Some(c) => Some(c),
            None => match &defaults[i] {
                Some(d) => Some(d.clone()),
                None => None,
            },
        };
        let memo = match &entries[i].memo {
            Some(m) => Some(m.clone()),
            None => None,
        };
        let updated = PostEntryParams {
            account_code: entries[i].account_code.clone(),
            direction: entries[i].direction.clone(),
            amount: entries[i].amount,
            memo,
            tax_category: category,
        };
        entries.set(i, updated);
        i = i + 1;
    }
}

} // verus!
