//! Text helpers: decimal rendering of integers and small string utilities.
use vstd::prelude::*;

verus! {

/// The ASCII character for a decimal digit.
pub open spec fn digit_char(d: int) -> char {
    (('0' as int) + d) as char
}

/// Decimal digits of a natural number, most significant first.
pub open spec fn nat_digits(n: nat) -> Seq<char>
    decreases n,
{
    if n < 10 {
        seq![digit_char(n as int)]
    } else {
        nat_digits(n / 10).push(digit_char((n % 10) as int))
    }
}

/// Decimal rendering of an integer, with a leading `-` when negative.
pub open spec fn int_decimal(n: int) -> Seq<char> {
    if n < 0 {
        seq!['-'] + nat_digits((-n) as nat)
    } else {
        nat_digits(n as nat)
    }
}

/// Appends one character to a string.
#[verifier::external_body]
pub(crate) fn string_push(s: &mut String, c: char)
    ensures
        final(s)@ == old(s)@.push(c),
{
    s.push(c);
}

/// The character of a digit in `0..=9`.
pub fn digit_to_char(d: u8) -> (c: char)
    requires
        d < 10,
    ensures
        c == digit_char(d as int),
{
    let r = match d {
        0 => '0',
        1 => '1',
        2 => '2',
        3 => '3',
        4 => '4',
        5 => '5',
        6 => '6',
        7 => '7',
        8 => '8',
        _ => '9',
    };
    r
}

proof fn lemma_nat_digits_len(n: nat)
    ensures
        nat_digits(n).len() >= 1,
    decreases n,
{
    if n >= 10 {
        lemma_nat_digits_len(n / 10);
    }
}

/// Appends the decimal digits of `n` to `out`.
pub fn push_u128_digits(out: &mut String, n: u128)
    ensures
        final(out)@ == old(out)@ + nat_digits(n as nat),
    decreases n,
{
    if n < 10 {
        string_push(out, digit_to_char(n as u8));
        assert(nat_digits(n as nat) =~= seq![digit_char(n as int)]);
    } else {
        push_u128_digits(out, n / 10);
        string_push(out, digit_to_char((n % 10) as u8));
        assert(old(out)@ + nat_digits(n as nat) =~= old(out)@ + nat_digits((n / 10) as nat) + seq![
            digit_char((n % 10) as int),
        ]);
    }
}

/// Decimal rendering of an `i128`.
pub fn i128_to_string(n: i128) -> (s: String)
    ensures
        s@ == int_decimal(n as int),
{
    let mut s = String::new();
    if n < 0 {
        string_push(&mut s, '-');
        let m: u128 = if n == i128::MIN {
            0x8000_0000_0000_0000_0000_0000_0000_0000u128
        } else {
            (-n) as u128
        };
        push_u128_digits(&mut s, m);
    } else {
        push_u128_digits(&mut s, n as u128);
    }
    s
}


/// Ten to the power `n`.
pub open spec fn pow10(n: nat) -> nat
    decreases n,
{
    if n == 0 {
        1
    } else {
        10 * pow10((n - 1) as nat)
    }
}

/// Powers of ten are positive.
pub proof fn lemma_pow10_pos(a: nat)
    ensures
        1 <= pow10(a),
    decreases a,
{
    if a > 0 {
        lemma_pow10_pos((a - 1) as nat);
    }
}

/// Powers of ten grow with the exponent and are positive.
pub proof fn lemma_pow10_monotone(a: nat, b: nat)
    requires
        a <= b,
    ensures
        1 <= pow10(a) <= pow10(b),
    decreases b,
{
    lemma_pow10_pos(a);
    if b > a {
        lemma_pow10_monotone(a, (b - 1) as nat);
    }
}

/// Powers of ten multiply by adding exponents.
pub proof fn lemma_pow10_add(a: nat, b: nat)
    ensures
        pow10(a + b) == pow10(a) * pow10(b),
    decreases b,
{
    if b == 0 {
        assert(pow10(b) == 1);
        assert(a + b == a);
    } else {
        let c = (b - 1) as nat;
        lemma_pow10_add(a, c);
        assert((a + b - 1) as nat == a + c);
        assert(pow10(a + b) == 10 * pow10(a + c));
        assert(pow10(b) == 10 * pow10(c));
        let x = pow10(a);
        let y = pow10(c);
        assert(x * (10 * y) == 10 * (x * y)) by (nonlinear_arith);
    }
}

/// The largest power of ten that fits in an `i128`.
pub proof fn lemma_pow10_38()
    ensures
        pow10(38) == 100_000_000_000_000_000_000_000_000_000_000_000_000,
        pow10(38) < i128::MAX,
        pow10(18) == 1_000_000_000_000_000_000,
        pow10(18) < i64::MAX,
        pow10(19) < u64::MAX,
{
    reveal_with_fuel(pow10, 40);
}

/// Computes `10^n` for `n <= 38`.
pub fn pow10_u128(n: u32) -> (p: u128)
    requires
        n <= 38,
    ensures
        p == pow10(n as nat),
{
    proof {
        lemma_pow10_38();
    }
    let mut p: u128 = 1;
    let mut i: u32 = 0;
    while i < n
        invariant
            i <= n <= 38,
            p == pow10(i as nat),
            pow10(38) < i128::MAX,
        decreases n - i,
    {
        proof {
            lemma_pow10_monotone((i + 1) as nat, 38);
        }
        p = p * 10;
        i = i + 1;
    }
    p
}

/// `n` zero characters.
pub open spec fn zeros(n: nat) -> Seq<char> {
    Seq::new(n, |i: int| '0')
}

/// The digits of `n`, left-padded with zeros to at least `width` characters.
pub open spec fn padded_digits(n: nat, width: nat) -> Seq<char> {
    let d = nat_digits(n);
    if d.len() >= width {
        d
    } else {
        zeros((width - d.len()) as nat) + d
    }
}

/// Decimal rendering of a `u128`.
pub fn u128_to_string(n: u128) -> (s: String)
    ensures
        s@ == nat_digits(n as nat),
{
    let mut s = String::new();
    push_u128_digits(&mut s, n);
    assert(s@ =~= nat_digits(n as nat));
    s
}

/// Appends the digits of `n`, left-padded with zeros to `width` characters.
pub fn push_padded_digits(out: &mut String, n: u128, width: usize)
    ensures
        final(out)@ == old(out)@ + padded_digits(n as nat, width as nat),
{
    let d = u128_to_string(n);
    let len = d.as_str().unicode_len();
    if len < width {
        let mut k: usize = 0;
        while k < width - len
            invariant
                k <= width - len,
                len < width,
                out@ == old(out)@ + zeros(k as nat),
            decreases width - len - k,
        {
            string_push(out, '0');
            k = k + 1;
            assert(out@ =~= old(out)@ + zeros(k as nat));
        }
    }
    out.append(d.as_str());
    assert(final(out)@ =~= old(out)@ + padded_digits(n as nat, width as nat));
}


/// `|v|`, except that the most negative `i128` maps to the largest one.
pub open spec fn saturating_abs(v: int) -> int {
    if v == i128::MIN {
        i128::MAX as int
    } else if v < 0 {
        -v
    } else {
        v
    }
}

/// A count of minor units written as a decimal number with `dp` places,
/// such as `-0.50` for `-50` with two places.
pub open spec fn decimal_text(v: int, dp: nat) -> Seq<char> {
    if dp == 0 {
        int_decimal(v)
    } else {
        let a = saturating_abs(v) as nat;
        (if v < 0 {
            seq!['-']
        } else {
            Seq::<char>::empty()
        }) + nat_digits(a / pow10(dp)) + seq!['.'] + padded_digits(a % pow10(dp), dp)
    }
}

/// Writes `v` minor units as a decimal number with `dp` places.
pub fn format_minor_decimal(v: i128, dp: u8) -> (s: String)
    requires
        dp <= 38,
    ensures
        s@ == decimal_text(v as int, dp as nat),
{
    if dp == 0 {
        return i128_to_string(v);
    }
    let divisor = pow10_u128(dp as u32);
    let is_negative = v < 0;
    let abs_val: u128 = if v == i128::MIN {
        i128::MAX as u128
    } else if v < 0 {
        (-v) as u128
    } else {
        v as u128
    };
    proof {
        lemma_pow10_pos(dp as nat);
    }
    let whole = abs_val / divisor;
    let frac = abs_val % divisor;
    let mut s = String::new();
    if is_negative {
        string_push(&mut s, '-');
    }
    push_u128_digits(&mut s, whole);
    string_push(&mut s, '.');
    push_padded_digits(&mut s, frac, dp as usize);
    assert(s@ =~= decimal_text(v as int, dp as nat));
    s
}


/// Character-wise equality of two string slices.
pub fn str_eq(a: &str, b: &str) -> (r: bool)
    ensures
        r == (a@ == b@),
{
    let n = a.unicode_len();
    let m = b.unicode_len();
    if n != m {
        return false;
    }
    let mut i: usize = 0;
    while i < n
        invariant
            n == a@.len(),
            m == b@.len(),
            n == m,
            i <= n,
            forall|j: int| 0 <= j < i ==> a@[j] == b@[j],
        decreases n - i,
    {
        if a.get_char(i) != b.get_char(i) {
            return false;
        }
        i = i + 1;
    }
    assert(a@ =~= b@);
    true
}


/// Decodes UTF-8 bytes into a string slice, or `None` when they are not
/// valid UTF-8 (`std::str::from_utf8`).
#[verifier::external_body]
pub(crate) fn str_from_utf8(bytes: &[u8]) -> (r: Option<&str>)
    ensures
        r is Some <==> vstd::utf8::valid_utf8(bytes@),
        r matches Some(s) ==> s@ == vstd::utf8::decode_utf8(bytes@),
{
    std::str::from_utf8(bytes).ok()
}

/// Whether `c` is an ASCII uppercase letter.
pub open spec fn is_upper(c: char) -> bool {
    'A' <= c <= 'Z'
}


/// The ASCII lowercase of a character (other characters are unchanged).
pub open spec fn ascii_lower(c: char) -> char {
    if 'A' <= c <= 'Z' {
        ((c as int) + 32) as char
    } else {
        c
    }
}

/// The ASCII lowercase of a character sequence.
pub open spec fn ascii_lower_seq(s: Seq<char>) -> Seq<char> {
    Seq::new(s.len(), |i: int| ascii_lower(s[i]))
}

/// The ASCII lowercase of one character.
pub fn char_ascii_lower(c: char) -> (r: char)
    ensures
        r == ascii_lower(c),
{
    if 'A' <= c && c <= 'Z' {
        ((c as u8) + 32) as char
    } else {
        c
    }
}

/// Equality of two strings up to ASCII case.
pub fn eq_ignore_ascii_case(a: &str, b: &str) -> (r: bool)
    ensures
        r == (ascii_lower_seq(a@) == ascii_lower_seq(b@)),
{
    let n = a.unicode_len();
    let m = b.unicode_len();
    if n != m {
        proof {
            assert(ascii_lower_seq(a@).len() != ascii_lower_seq(b@).len());
        }
        return false;
    }
    let mut i: usize = 0;
    while i < n
        invariant
            n == a@.len(),
            m == b@.len(),
            n == m,
            i <= n,
            forall|j: int| 0 <= j < i ==> ascii_lower(a@[j]) == ascii_lower(b@[j]),
        decreases n - i,
    {
        if char_ascii_lower(a.get_char(i)) != char_ascii_lower(b.get_char(i)) {
            assert(ascii_lower_seq(a@)[i as int] != ascii_lower_seq(b@)[i as int]);
            return false;
        }
        i = i + 1;
    }
    assert(ascii_lower_seq(a@) =~= ascii_lower_seq(b@));
    true
}

/// The ASCII lowercase of a string.
pub fn to_ascii_lowercase(s: &str) -> (r: String)
    ensures
        r@ == ascii_lower_seq(s@),
{
    let n = s.unicode_len();
    let mut r = String::new();
    let mut i: usize = 0;
    while i < n
        invariant
            n == s@.len(),
            i <= n,
            r@ == ascii_lower_seq(s@.subrange(0, i as int)),
        decreases n - i,
    {
        string_push(&mut r, char_ascii_lower(s.get_char(i)));
        i = i + 1;
        assert(r@ =~= ascii_lower_seq(s@.subrange(0, i as int)));
    }
    assert(s@.subrange(0, n as int) =~= s@);
    r
}

/// Whether `c` is Unicode white space (`char::is_whitespace`).
pub open spec fn is_ws(c: char) -> bool {
    ||| '\u{9}' <= c <= '\u{d}'
    ||| c == ' '
    ||| c == '\u{85}'
    ||| c == '\u{a0}'
    ||| c == '\u{1680}'
    ||| '\u{2000}' <= c <= '\u{200a}'
    ||| c == '\u{2028}'
    ||| c == '\u{2029}'
    ||| c == '\u{202f}'
    ||| c == '\u{205f}'
    ||| c == '\u{3000}'
}

/// Whether `c` is Unicode white space.
pub fn char_is_ws(c: char) -> (b: bool)
    ensures
        b == is_ws(c),
{
    ('\u{9}' <= c && c <= '\u{d}') || c == ' ' || c == '\u{85}' || c == '\u{a0}' || c == '\u{1680}'
        || ('\u{2000}' <= c && c <= '\u{200a}') || c == '\u{2028}' || c == '\u{2029}' || c
        == '\u{202f}' || c == '\u{205f}' || c == '\u{3000}'
}

/// `s` without its leading white space.
pub open spec fn trim_front(s: Seq<char>) -> Seq<char>
    decreases s.len(),
{
    if s.len() > 0 && is_ws(s[0]) {
        trim_front(s.drop_first())
    } else {
        s
    }
}

/// `s` without its trailing white space.
pub open spec fn trim_back(s: Seq<char>) -> Seq<char>
    decreases s.len(),
{
    if s.len() > 0 && is_ws(s.last()) {
        trim_back(s.drop_last())
    } else {
        s
    }
}

/// `s` without leading and trailing white space (`str::trim`).
pub open spec fn trim_text(s: Seq<char>) -> Seq<char> {
    trim_back(trim_front(s))
}

/// `trim_back` keeps a prefix of its input, and all of it when the
/// input does not end in white space.
pub proof fn lemma_trim_back_prefix(s: Seq<char>)
    ensures
        trim_back(s).len() <= s.len(),
        trim_back(s) == s.subrange(0, trim_back(s).len() as int),
        trim_back(s).len() > 0 ==> !is_ws(trim_back(s).last()),
    decreases s.len(),
{
    if s.len() > 0 && is_ws(s.last()) {
        lemma_trim_back_prefix(s.drop_last());
        assert(s.drop_last().subrange(0, trim_back(s).len() as int) =~= s.subrange(
            0,
            trim_back(s).len() as int,
        ));
    } else {
        assert(s.subrange(0, s.len() as int) =~= s);
    }
}

/// `trim_front` keeps a suffix, and the result does not start with white space.
pub proof fn lemma_trim_front_suffix(s: Seq<char>)
    ensures
        trim_front(s).len() <= s.len(),
        trim_front(s) == s.subrange(s.len() - trim_front(s).len(), s.len() as int),
        trim_front(s).len() > 0 ==> !is_ws(trim_front(s)[0]),
    decreases s.len(),
{
    if s.len() > 0 && is_ws(s[0]) {
        lemma_trim_front_suffix(s.drop_first());
        assert(s.drop_first().subrange(
            s.drop_first().len() - trim_front(s).len(),
            s.drop_first().len() as int,
        ) =~= s.subrange(s.len() - trim_front(s).len(), s.len() as int));
    } else {
        assert(s.subrange(0, s.len() as int) =~= s);
    }
}

/// Trimming is idempotent: trimmed text is its own trim.
pub proof fn lemma_trim_idempotent(s: Seq<char>)
    ensures
        trim_text(trim_text(s)) == trim_text(s),
{
    let f = trim_front(s);
    let t = trim_back(f);
    lemma_trim_front_suffix(s);
    lemma_trim_back_prefix(f);
    // t does not start with white space: it is a prefix of f
    assert(trim_front(t) == t) by {
        if t.len() > 0 {
            assert(t[0] == f[0]);
        }
    }
    // t does not end with white space
    assert(trim_back(t) == t);
}

/// Returns `s` without leading and trailing white space.
/// `s` without its leading white space (`str::trim_start`).
pub fn trim_start(s: &str) -> (r: &str)
    ensures
        r@ == trim_front(s@),
{
    let n = s.unicode_len();
    let mut i: usize = 0;
    assert(s@.skip(0) =~= s@);
    while i < n && char_is_ws(s.get_char(i))
        invariant
            n == s@.len(),
            i <= n,
            trim_front(s@) == trim_front(s@.skip(i as int)),
        decreases n - i,
    {
        assert(s@.skip(i as int).drop_first() =~= s@.skip(i + 1));
        i = i + 1;
    }
    assert(s@.skip(i as int) =~= s@.subrange(i as int, n as int));
    s.substring_char(i, n)
}

/// `s` without its leading and trailing white space (`str::trim`).
pub fn trim(s: &str) -> (r: &str)
    ensures
        r@ == trim_text(s@),
{
    let n = s.unicode_len();
    let mut i: usize = 0;
    assert(s@.skip(0) =~= s@);
    while i < n && char_is_ws(s.get_char(i))
        invariant
            n == s@.len(),
            i <= n,
            trim_front(s@) == trim_front(s@.skip(i as int)),
        decreases n - i,
    {
        assert(s@.skip(i as int).drop_first() =~= s@.skip(i + 1));
        i = i + 1;
    }
    assert(trim_front(s@) == s@.subrange(i as int, n as int)) by {
        assert(s@.skip(i as int) =~= s@.subrange(i as int, n as int));
    }
    let mut j: usize = n;
    while j > i && char_is_ws(s.get_char(j - 1))
        invariant
            n == s@.len(),
            i <= j <= n,
            trim_text(s@) == trim_back(s@.subrange(i as int, j as int)),
        decreases j,
    {
        assert(s@.subrange(i as int, j as int).drop_last() =~= s@.subrange(i as int, j - 1));
        j = j - 1;
    }
    s.substring_char(i, j)
}


/// Whether `c` is an ASCII decimal digit.
pub open spec fn is_digit(c: char) -> bool {
    '0' <= c <= '9'
}

/// Whether every character of `s` is an ASCII decimal digit.
pub open spec fn all_digits(s: Seq<char>) -> bool {
    forall|i: int| 0 <= i < s.len() ==> is_digit(#[trigger] s[i])
}

/// The value of a string of decimal digits, most significant first.
pub open spec fn digits_value(s: Seq<char>) -> int
    decreases s.len(),
{
    if s.len() == 0 {
        0
    } else {
        digits_value(s.drop_last()) * 10 + (s.last() as int - '0' as int)
    }
}

/// The integer that `i64::from_str` reads from `s`: an optional `+` or `-`
/// followed by one or more ASCII digits, within the range of `i64`.
pub open spec fn i64_text_value(s: Seq<char>) -> Option<int> {
    let signed = s.len() > 0 && (s[0] == '+' || s[0] == '-');
    let body = if signed {
        s.drop_first()
    } else {
        s
    };
    let v = if s.len() > 0 && s[0] == '-' {
        -digits_value(body)
    } else {
        digits_value(body)
    };
    if body.len() > 0 && all_digits(body) && i64::MIN <= v <= i64::MAX {
        Some(v)
    } else {
        None
    }
}

/// Digit strings have non-negative values that do not shrink as digits are
/// appended.
pub proof fn lemma_digits_value_prefix(s: Seq<char>, k: int)
    requires
        all_digits(s),
        0 <= k <= s.len(),
    ensures
        0 <= digits_value(s.subrange(0, k)) <= digits_value(s),
    decreases s.len(),
{
    if k < s.len() {
        let p = s.drop_last();
        assert(all_digits(p)) by {
            assert forall|i: int| 0 <= i < p.len() implies is_digit(#[trigger] p[i]) by {
                assert(p[i] == s[i]);
            }
        }
        assert(s.subrange(0, k) =~= p.subrange(0, k));
        lemma_digits_value_prefix(p, k);
        lemma_digits_value_prefix(p, p.len() as int);
        assert(p.subrange(0, p.len() as int) =~= p);
        assert(is_digit(s[s.len() - 1]));
    } else {
        assert(s.subrange(0, k) =~= s);
        if s.len() > 0 {
            let p = s.drop_last();
            assert(all_digits(p)) by {
                assert forall|i: int| 0 <= i < p.len() implies is_digit(#[trigger] p[i]) by {
                    assert(p[i] == s[i]);
                }
            }
            lemma_digits_value_prefix(p, p.len() as int);
            assert(p.subrange(0, p.len() as int) =~= p);
            assert(is_digit(s[s.len() - 1]));
        }
    }
}

/// Reads a decimal `i64` as `i64::from_str` does: an optional `+` or `-`
/// followed by one or more ASCII digits; `None` when malformed or out of
/// range.
pub fn parse_i64(s: &str) -> (r: Option<i64>)
    ensures
        match i64_text_value(s@) {
            Some(v) => r == Some(v as i64),
            None => r is None,
        },
{
    let n = s.unicode_len();
    let mut start: usize = 0;
    let mut neg = false;
    if n > 0 {
        let c0 = s.get_char(0);
        if c0 == '+' || c0 == '-' {
            neg = c0 == '-';
            start = 1;
        }
    }
    let ghost body = if start == 1 {
        s@.drop_first()
    } else {
        s@
    };
    assert(body =~= s@.subrange(start as int, n as int));
    if start == n {
        return None;
    }
    let mut acc: i128 = 0;
    let mut i: usize = start;
    assert(s@.subrange(start as int, start as int) =~= Seq::<char>::empty());
    while i < n
        invariant
            n == s@.len(),
            start <= i <= n,
            body == s@.subrange(start as int, n as int),
            start == (if s@.len() > 0 && (s@[0] == '+' || s@[0] == '-') {
                1int
            } else {
                0int
            }),
            neg == (s@.len() > 0 && s@[0] == '-'),
            acc == digits_value(s@.subrange(start as int, i as int)),
            all_digits(s@.subrange(start as int, i as int)),
            0 <= acc <= 0x8000_0000_0000_0000,
        decreases n - i,
    {
        let c = s.get_char(i);
        let ghost pre = s@.subrange(start as int, i as int);
        let ghost nxt = s@.subrange(start as int, i + 1);
        assert(nxt.drop_last() =~= pre);
        assert(nxt.last() == c);
        if !('0' <= c && c <= '9') {
            assert(!all_digits(body)) by {
                assert(body[i - start] == c);
            }
            return None;
        }
        let d: i128 = (c as u32 - '0' as u32) as i128;
        assert(d == c as int - '0' as int);
        acc = acc * 10 + d;
        assert(acc == digits_value(nxt));
        assert(all_digits(nxt)) by {
            assert forall|j: int| 0 <= j < nxt.len() implies is_digit(#[trigger] nxt[j]) by {
                if j < pre.len() {
                    assert(nxt[j] == pre[j]);
                }
            }
        }
        if acc > 0x8000_0000_0000_0000 {
            proof {
                if all_digits(body) {
                    lemma_digits_value_prefix(body, i + 1 - start);
                    assert(body.subrange(0, i + 1 - start) =~= nxt);
                    assert(digits_value(body) > 0x8000_0000_0000_0000);
                }
                if start == 1 {
                    assert(s@.drop_first() =~= body);
                } else {
                    assert(s@ =~= body);
                }
            }
            return None;
        }
        i = i + 1;
    }
    assert(s@.subrange(start as int, i as int) =~= body);
    if neg {
        Some((0 - acc) as i64)
    } else if acc > 0x7fff_ffff_ffff_ffff {
        None
    } else {
        Some(acc as i64)
    }
}

/// The parts of `s` before and after its first `c`, or `None` when `s` has
/// no `c`.
pub open spec fn split_first(s: Seq<char>, c: char) -> Option<(Seq<char>, Seq<char>)>
    decreases s.len(),
{
    if s.len() == 0 {
        None
    } else if s[0] == c {
        Some((Seq::empty(), s.drop_first()))
    } else {
        match split_first(s.drop_first(), c) {
            Some((a, b)) => Some((seq![s[0]] + a, b)),
            None => None,
        }
    }
}

/// `split_first` splits at the first occurrence.
pub proof fn lemma_split_first(s: Seq<char>, c: char, i: int)
    requires
        0 <= i <= s.len(),
        forall|j: int| 0 <= j < i ==> s[j] != c,
    ensures
        i < s.len() && s[i] == c ==> split_first(s, c) == Some(
            (s.subrange(0, i), s.subrange(i + 1, s.len() as int)),
        ),
        i == s.len() ==> split_first(s, c) is None,
    decreases i,
{
    if i > 0 {
        let t = s.drop_first();
        assert forall|j: int| 0 <= j < i - 1 implies t[j] != c by {
            assert(t[j] == s[j + 1]);
        }
        lemma_split_first(t, c, i - 1);
        if i < s.len() && s[i] == c {
            assert(t[i - 1] == s[i]);
            assert(seq![s[0]] + t.subrange(0, i - 1) =~= s.subrange(0, i));
            assert(t.subrange(i, t.len() as int) =~= s.subrange(i + 1, s.len() as int));
        }
    } else if s.len() == 0 {
    } else if s[0] == c {
        assert(s.subrange(0, 0) =~= Seq::<char>::empty());
        assert(s.drop_first() =~= s.subrange(1, s.len() as int));
    }
}

/// Splits `s` at its first `c`, as `str::split_once` with a character.
pub fn split_once_char(s: &str, c: char) -> (r: Option<(&str, &str)>)
    ensures
        match split_first(s@, c) {
            Some((a, b)) => r matches Some((x, y)) && x@ == a && y@ == b,
            None => r is None,
        },
{
    let n = s.unicode_len();
    let mut i: usize = 0;
    while i < n
        invariant
            n == s@.len(),
            i <= n,
            forall|j: int| 0 <= j < i ==> s@[j] != c,
        decreases n - i,
    {
        if s.get_char(i) == c {
            proof {
                lemma_split_first(s@, c, i as int);
            }
            return Some((s.substring_char(0, i), s.substring_char(i + 1, n)));
        }
        i = i + 1;
    }
    proof {
        lemma_split_first(s@, c, i as int);
    }
    None
}

/// Appends `s` to `out`.
pub fn push_str(out: &mut String, s: &str)
    ensures
        final(out)@ == old(out)@ + s@,
{
    out.append(s);
}

/// `x` clamped into the range of `i64`.
pub open spec fn clamp_i64(x: int) -> int {
    if x > i64::MAX {
        i64::MAX as int
    } else if x < i64::MIN {
        i64::MIN as int
    } else {
        x
    }
}

/// `a + b`, saturating at the bounds of `i64`.
pub fn saturating_add_i64(a: i64, b: i64) -> (r: i64)
    ensures
        r == clamp_i64(a + b),
{
    match a.checked_add(b) {
        Some(v) => v,
        None => if b > 0 {
            i64::MAX
        } else {
            i64::MIN
        },
    }
}

/// `a - b`, saturating at the bounds of `i64`.
pub fn saturating_sub_i64(a: i64, b: i64) -> (r: i64)
    ensures
        r == clamp_i64(a - b),
{
    match a.checked_sub(b) {
        Some(v) => v,
        None => if b < 0 {
            i64::MAX
        } else {
            i64::MIN
        },
    }
}

/// Lines joined with `\n` between them.
pub open spec fn join_lines(ls: Seq<Seq<char>>) -> Seq<char>
    decreases ls.len(),
{
    if ls.len() == 0 {
        Seq::empty()
    } else if ls.len() == 1 {
        ls[0]
    } else {
        join_lines(ls.drop_last()) + seq!['\n'] + ls.last()
    }
}

/// The texts of a list of strings.
pub open spec fn string_views(v: Seq<String>) -> Seq<Seq<char>> {
    v.map_values(|s: String| s@)
}

/// Joins lines with `\n` between them.
pub fn join_with_newlines(lines: &Vec<String>) -> (r: String)
    ensures
        r@ == join_lines(string_views(lines@)),
{
    let mut out = String::new();
    let mut i: usize = 0;
    while i < lines.len()
        invariant
            i <= lines@.len(),
            out@ == join_lines(string_views(lines@.take(i as int))),
        decreases lines@.len() - i,
    {
        if i > 0 {
            string_push(&mut out, '\n');
        }
        out.append(lines[i].as_str());
        proof {
            let a = string_views(lines@.take(i + 1));
            assert(a.drop_last() =~= string_views(lines@.take(i as int)));
            assert(a.last() == lines@[i as int]@);
            if i == 0 {
                assert(out@ =~= a[0]);
            }
        }
        i = i + 1;
    }
    assert(lines@.take(i as int) =~= lines@);
    out
}

/// Whether `t` occurs in `s` at position `i`.
pub open spec fn occurs_at(s: Seq<char>, t: Seq<char>, i: int) -> bool {
    0 <= i && i + t.len() <= s.len() && s.subrange(i, i + t.len()) == t
}

/// Whether `t` occurs somewhere in `s`.
pub open spec fn has_substring(s: Seq<char>, t: Seq<char>) -> bool {
    exists|i: int| occurs_at(s, t, i)
}

/// Whether `t` occurs in `s` at character position `i`.
fn matches_at(s: &str, t: &str, i: usize) -> (r: bool)
    requires
        i + t@.len() <= s@.len(),
    ensures
        r == occurs_at(s@, t@, i as int),
{
    let m = t.unicode_len();
    let n = s.unicode_len();
    let mut k: usize = 0;
    while k < m
        invariant
            m == t@.len(),
            n == s@.len(),
            i + m <= s@.len(),
            k <= m,
            forall|j: int| 0 <= j < k ==> s@[i + j] == t@[j],
        decreases m - k,
    {
        if s.get_char(i + k) != t.get_char(k) {
            assert(s@.subrange(i as int, i + m)[k as int] != t@[k as int]);
            return false;
        }
        k = k + 1;
    }
    assert(s@.subrange(i as int, i + m) =~= t@);
    true
}

/// Whether `t` occurs in `s` (`str::contains` with a string pattern).
pub fn contains_text(s: &str, t: &str) -> (r: bool)
    ensures
        r == has_substring(s@, t@),
{
    let n = s.unicode_len();
    let m = t.unicode_len();
    if m > n {
        assert forall|i: int| !occurs_at(s@, t@, i) by {}
        return false;
    }
    let last = n - m;
    let mut i: usize = 0;
    while i < last
        invariant
            n == s@.len(),
            m == t@.len(),
            m <= n,
            last == n - m,
            i <= last,
            forall|j: int| 0 <= j < i ==> !occurs_at(s@, t@, j),
        decreases last - i,
    {
        if matches_at(s, t, i) {
            return true;
        }
        i = i + 1;
    }
    if matches_at(s, t, last) {
        return true;
    }
    assert forall|j: int| !occurs_at(s@, t@, j) by {
        if 0 <= j < last {
        }
    }
    false
}

/// The lowercase form of a text, as `str::to_lowercase` gives it (from
/// the Unicode tables of the standard library).
pub uninterp spec fn lowercase_text(s: Seq<char>) -> Seq<char>;

/// `str::to_lowercase`. Its result is named `lowercase_text`.
#[verifier::external_body]
pub(crate) fn to_lowercase(s: &str) -> (r: String)
    ensures
        r@ == lowercase_text(s@),
{
    s.to_lowercase()
}

/// Texts joined with `sep` between them.
pub open spec fn join_with_sep_spec(ls: Seq<Seq<char>>, sep: Seq<char>) -> Seq<char>
    decreases ls.len(),
{
    if ls.len() == 0 {
        Seq::empty()
    } else if ls.len() == 1 {
        ls[0]
    } else {
        join_with_sep_spec(ls.drop_last(), sep) + sep + ls.last()
    }
}

/// Joins strings with `sep` between them (`[String]::join`).
pub fn join_with_sep(items: &Vec<String>, sep: &str) -> (r: String)
    ensures
        r@ == join_with_sep_spec(string_views(items@), sep@),
{
    let mut out = String::new();
    let mut i: usize = 0;
    while i < items.len()
        invariant
            i <= items@.len(),
            out@ == join_with_sep_spec(string_views(items@.take(i as int)), sep@),
        decreases items@.len() - i,
    {
        if i > 0 {
            out.append(sep);
        }
        out.append(items[i].as_str());
        proof {
            let a = string_views(items@.take(i + 1));
            assert(a.drop_last() =~= string_views(items@.take(i as int)));
            assert(a.last() == items@[i as int]@);
            if i == 0 {
                assert(out@ =~= a[0]);
            }
        }
        i = i + 1;
    }
    assert(items@.take(i as int) =~= items@);
    out
}

/// The leading part of a content hash shown in listings and
/// display forms: its first twelve
/// bytes, or all of it when shorter.
pub open spec fn short_hash(h: Seq<char>) -> Seq<char> {
    let b = vstd::utf8::encode_utf8(h);
    vstd::utf8::decode_utf8(b.take(if b.len() < 12 {
        b.len() as int
    } else {
        12
    }))
}

/// Whether the first twelve bytes of `h` end on a character boundary, so
/// that they can be cut off (always true of a hexadecimal hash).
pub open spec fn hash_cuttable(h: Seq<char>) -> bool {
    let b = vstd::utf8::encode_utf8(h);
    b.len() <= 12 || vstd::utf8::is_char_boundary(b, 12)
}

} // verus!
