//! The order SQLite sorts text in, and what it means for `YYYY-MM-DD`
//! dates: their text order is their calendar order.
use vstd::prelude::*;
use crate::text::{digit_char, nat_digits, padded_digits, zeros};
use crate::cli::commands::import_ofx::ymd_text;

verus! {

/// Whether `a` sorts before `b` as SQLite compares text by default
/// (`BINARY`): at the first position where they differ the character of
/// `a` is smaller, or `a` is a proper prefix of `b`.
pub open spec fn text_lt(a: Seq<char>, b: Seq<char>) -> bool
    decreases a.len(),
{
    if a.len() == 0 {
        b.len() > 0
    } else if b.len() == 0 {
        false
    } else if a[0] != b[0] {
        a[0] < b[0]
    } else {
        text_lt(a.drop_first(), b.drop_first())
    }
}

/// Whether `a` sorts before or equals `b`.
pub open spec fn text_le(a: Seq<char>, b: Seq<char>) -> bool {
    text_lt(a, b) || a == b
}

/// Comparing texts that start with parts of equal length compares those
/// parts first, then what follows.
pub proof fn lemma_text_lt_concat(a: Seq<char>, x: Seq<char>, b: Seq<char>, y: Seq<char>)
    requires
        a.len() == b.len(),
    ensures
        text_lt(a + x, b + y) == (text_lt(a, b) || (a == b && text_lt(x, y))),
        (a + x == b + y) == (a == b && x == y),
    decreases a.len(),
{
    if a + x == b + y {
        assert(a =~= (a + x).subrange(0, a.len() as int));
        assert(b =~= (b + y).subrange(0, b.len() as int));
        assert(x =~= (a + x).subrange(a.len() as int, (a + x).len() as int));
        assert(y =~= (b + y).subrange(b.len() as int, (b + y).len() as int));
    }
    if a.len() == 0 {
        assert(a + x =~= x);
        assert(b + y =~= y);
        assert(a =~= b);
    } else {
        assert((a + x)[0] == a[0]);
        assert((b + y)[0] == b[0]);
        assert((a + x).drop_first() =~= a.drop_first() + x);
        assert((b + y).drop_first() =~= b.drop_first() + y);
        lemma_text_lt_concat(a.drop_first(), x, b.drop_first(), y);
        if a[0] == b[0] && a.drop_first() == b.drop_first() {
            assert(a =~= b) by {
                assert forall|i: int| 0 <= i < a.len() implies a[i] == b[i] by {
                    if i > 0 {
                        assert(a[i] == a.drop_first()[i - 1]);
                        assert(b[i] == b.drop_first()[i - 1]);
                    }
                }
            }
        }
        if a == b {
            assert(a.drop_first() == b.drop_first());
        }
    }
}

/// One character sorts before another by its code point.
pub proof fn lemma_text_lt_single(c: char, e: char)
    ensures
        text_lt(seq![c], seq![e]) == (c < e),
{
    assert(seq![c].drop_first() =~= Seq::<char>::empty());
    assert(seq![e].drop_first() =~= Seq::<char>::empty());
    assert(seq![c][0] == c);
    assert(seq![e][0] == e);
    assert(!text_lt(Seq::<char>::empty(), Seq::<char>::empty()));
}

/// Digit characters are ordered as their digits.
pub proof fn lemma_digit_chars(a: int, b: int)
    requires
        0 <= a <= 9,
        0 <= b <= 9,
    ensures
        (digit_char(a) < digit_char(b)) == (a < b),
        (digit_char(a) == digit_char(b)) == (a == b),
{
    assert(digit_char(a) as int == '0' as int + a);
    assert(digit_char(b) as int == '0' as int + b);
}

/// Two places of a number below a hundred, tens first.
pub proof fn lemma_two_places(n: nat)
    requires
        n < 100,
    ensures
        padded_digits(n, 2) == seq![digit_char((n / 10) as int), digit_char((n % 10) as int)],
{
    if n < 10 {
        assert(nat_digits(n) == seq![digit_char(n as int)]);
        assert(zeros(1) =~= seq!['0']);
        assert(digit_char(0) == '0');
        assert(padded_digits(n, 2) =~= seq![digit_char((n / 10) as int), digit_char((n % 10) as int)]);
    } else {
        assert(nat_digits(n / 10) == seq![digit_char((n / 10) as int)]);
        assert(nat_digits(n) =~= seq![digit_char((n / 10) as int), digit_char((n % 10) as int)]);
    }
}

/// The four places of a number from 1000 to 9999.
pub proof fn lemma_four_places(n: nat)
    requires
        1000 <= n <= 9999,
    ensures
        padded_digits(n, 4) == seq![
            digit_char((n / 1000) as int),
            digit_char((n / 100 % 10) as int),
            digit_char((n / 10 % 10) as int),
            digit_char((n % 10) as int),
        ],
        nat_digits(n) == padded_digits(n, 4),
{
    let n1 = n / 10;
    let n2 = n1 / 10;
    let n3 = n2 / 10;
    assert(n2 == n / 100);
    assert(n3 == n / 1000);
    assert(nat_digits(n3) == seq![digit_char(n3 as int)]);
    assert(nat_digits(n2) =~= seq![digit_char(n3 as int), digit_char((n2 % 10) as int)]);
    assert(nat_digits(n1) =~= seq![
        digit_char(n3 as int),
        digit_char((n2 % 10) as int),
        digit_char((n1 % 10) as int),
    ]);
    assert(nat_digits(n) =~= seq![
        digit_char(n3 as int),
        digit_char((n2 % 10) as int),
        digit_char((n1 % 10) as int),
        digit_char((n % 10) as int),
    ]);
}

/// Two-digit texts sort as their numbers.
proof fn lemma_two_places_order(a: nat, b: nat)
    requires
        a < 100,
        b < 100,
    ensures
        text_lt(padded_digits(a, 2), padded_digits(b, 2)) == (a < b),
        (padded_digits(a, 2) == padded_digits(b, 2)) == (a == b),
{
    lemma_two_places(a);
    lemma_two_places(b);
    let (a1, a2) = ((a / 10) as int, (a % 10) as int);
    let (b1, b2) = ((b / 10) as int, (b % 10) as int);
    assert(seq![digit_char(a1), digit_char(a2)] =~= seq![digit_char(a1)] + seq![digit_char(a2)]);
    assert(seq![digit_char(b1), digit_char(b2)] =~= seq![digit_char(b1)] + seq![digit_char(b2)]);
    lemma_text_lt_concat(seq![digit_char(a1)], seq![digit_char(a2)], seq![digit_char(b1)], seq![digit_char(b2)]);
    lemma_text_lt_single(digit_char(a1), digit_char(b1));
    lemma_text_lt_single(digit_char(a2), digit_char(b2));
    lemma_digit_chars(a1, b1);
    lemma_digit_chars(a2, b2);
    assert(seq![digit_char(a1)] == seq![digit_char(b1)] <==> a1 == b1) by {
        if seq![digit_char(a1)] == seq![digit_char(b1)] {
            assert(seq![digit_char(a1)][0] == seq![digit_char(b1)][0]);
        }
    }
    assert(seq![digit_char(a2)] == seq![digit_char(b2)] <==> a2 == b2) by {
        if seq![digit_char(a2)] == seq![digit_char(b2)] {
            assert(seq![digit_char(a2)][0] == seq![digit_char(b2)][0]);
        }
    }
}

/// Single characters are equal exactly when their one-character texts are.
proof fn lemma_single_eq(c: char, e: char)
    ensures
        (seq![c] == seq![e]) == (c == e),
{
    if seq![c] == seq![e] {
        assert(seq![c][0] == seq![e][0]);
    }
}

/// Four-digit texts sort as their numbers.
proof fn lemma_four_places_order(a: nat, b: nat)
    requires
        1000 <= a <= 9999,
        1000 <= b <= 9999,
    ensures
        text_lt(padded_digits(a, 4), padded_digits(b, 4)) == (a < b),
        (padded_digits(a, 4) == padded_digits(b, 4)) == (a == b),
{
    lemma_four_places(a);
    lemma_four_places(b);
    let (a1, a2, a3, a4) = ((a / 1000) as int, (a / 100 % 10) as int, (a / 10 % 10) as int, (a % 10) as int);
    let (b1, b2, b3, b4) = ((b / 1000) as int, (b / 100 % 10) as int, (b / 10 % 10) as int, (b % 10) as int);
    let (ca1, ca2, ca3, ca4) = (digit_char(a1), digit_char(a2), digit_char(a3), digit_char(a4));
    let (cb1, cb2, cb3, cb4) = (digit_char(b1), digit_char(b2), digit_char(b3), digit_char(b4));
    assert(seq![ca1, ca2, ca3, ca4] =~= seq![ca1] + (seq![ca2] + (seq![ca3] + seq![ca4])));
    assert(seq![cb1, cb2, cb3, cb4] =~= seq![cb1] + (seq![cb2] + (seq![cb3] + seq![cb4])));
    lemma_text_lt_concat(seq![ca3], seq![ca4], seq![cb3], seq![cb4]);
    lemma_text_lt_concat(seq![ca2], seq![ca3] + seq![ca4], seq![cb2], seq![cb3] + seq![cb4]);
    lemma_text_lt_concat(
        seq![ca1],
        seq![ca2] + (seq![ca3] + seq![ca4]),
        seq![cb1],
        seq![cb2] + (seq![cb3] + seq![cb4]),
    );
    lemma_text_lt_single(ca1, cb1);
    lemma_text_lt_single(ca2, cb2);
    lemma_text_lt_single(ca3, cb3);
    lemma_text_lt_single(ca4, cb4);
    lemma_single_eq(ca1, cb1);
    lemma_single_eq(ca2, cb2);
    lemma_single_eq(ca3, cb3);
    lemma_single_eq(ca4, cb4);
    lemma_digit_chars(a1, b1);
    lemma_digit_chars(a2, b2);
    lemma_digit_chars(a3, b3);
    lemma_digit_chars(a4, b4);
    assert(a == 1000 * a1 + 100 * a2 + 10 * a3 + a4) by (nonlinear_arith)
        requires
            a1 == a / 1000,
            a2 == a / 100 % 10,
            a3 == a / 10 % 10,
            a4 == a % 10,
            1000 <= a <= 9999,
    ;
    assert(b == 1000 * b1 + 100 * b2 + 10 * b3 + b4) by (nonlinear_arith)
        requires
            b1 == b / 1000,
            b2 == b / 100 % 10,
            b3 == b / 10 % 10,
            b4 == b % 10,
            1000 <= b <= 9999,
    ;
}

/// Whether one calendar date, given by year, month and day, comes before
/// another.
pub open spec fn date_before(y1: int, m1: int, d1: int, y2: int, m2: int, d2: int) -> bool {
    y1 < y2 || (y1 == y2 && (m1 < m2 || (m1 == m2 && d1 < d2)))
}

/// `YYYY-MM-DD` dates (four-digit years, two-digit months and days) sort
/// as text in calendar order, and are the same text only for the same
/// date.
pub proof fn lemma_ymd_text_order(y1: int, m1: nat, d1: nat, y2: int, m2: nat, d2: nat)
    requires
        1000 <= y1 <= 9999,
        1000 <= y2 <= 9999,
        m1 < 100,
        m2 < 100,
        d1 < 100,
        d2 < 100,
    ensures
        text_lt(ymd_text(y1, m1, d1), ymd_text(y2, m2, d2)) == date_before(
            y1,
            m1 as int,
            d1 as int,
            y2,
            m2 as int,
            d2 as int,
        ),
        (ymd_text(y1, m1, d1) == ymd_text(y2, m2, d2)) == (y1 == y2 && m1 == m2 && d1 == d2),
{
    let dash = seq!['-'];
    let (ya, ma, da) = (padded_digits(y1 as nat, 4), padded_digits(m1, 2), padded_digits(d1, 2));
    let (yb, mb, db) = (padded_digits(y2 as nat, 4), padded_digits(m2, 2), padded_digits(d2, 2));
    lemma_four_places(y1 as nat);
    lemma_four_places(y2 as nat);
    lemma_two_places(m1);
    lemma_two_places(m2);
    lemma_two_places(d1);
    lemma_two_places(d2);
    assert(ymd_text(y1, m1, d1) =~= ya + (dash + (ma + (dash + da))));
    assert(ymd_text(y2, m2, d2) =~= yb + (dash + (mb + (dash + db))));
    lemma_text_lt_concat(dash, da, dash, db);
    lemma_text_lt_concat(ma, dash + da, mb, dash + db);
    lemma_text_lt_concat(dash, ma + (dash + da), dash, mb + (dash + db));
    lemma_text_lt_concat(ya, dash + (ma + (dash + da)), yb, dash + (mb + (dash + db)));
    lemma_text_lt_single('-', '-');
    lemma_four_places_order(y1 as nat, y2 as nat);
    lemma_two_places_order(m1, m2);
    lemma_two_places_order(d1, d2);
}

} // verus!
