//! Human-readable output: amounts with thousands separators, optional ANSI
//! colours from `anstyle`, detail views as lines of text, and listings laid
//! out as tables by `comfy-table`.
use vstd::prelude::*;
use comfy_table::presets::{ASCII_FULL, UTF8_FULL};
use comfy_table::{Cell, CellAlignment, ContentArrangement, Table};
use crate::cli::db::{
    AccountRow, AccountWithBalanceRow, AttachmentRow, BalanceRow, CompanyRow, EntryRow,
    OrphanedCorrelation, TaxSummaryRow, TransactionRow,
};
use crate::text::{
    hash_cuttable, short_hash, clamp_i64, i128_to_string, int_decimal, join_lines, join_with_newlines, lemma_pow10_38,
    lemma_pow10_monotone, lemma_pow10_pos, nat_digits, padded_digits, pow10, pow10_u128, push_str,
    push_padded_digits, saturating_add_i64, saturating_sub_i64, str_eq, string_push,
    string_views, u128_to_string,
};

verus! {

/// Digits grouped in threes from the right, the groups separated by commas.
pub open spec fn group_thousands(s: Seq<char>) -> Seq<char>
    decreases s.len(),
{
    if s.len() <= 3 {
        s
    } else {
        group_thousands(s.subrange(0, s.len() - 3)) + seq![','] + s.subrange(
            s.len() - 3,
            s.len() as int,
        )
    }
}

/// Appends the characters `from..to` of `s`.
fn push_chars(out: &mut String, s: &str, from: usize, to: usize)
    requires
        from <= to <= s@.len(),
    ensures
        final(out)@ == old(out)@ + s@.subrange(from as int, to as int),
{
    let mut k = from;
    while k < to
        invariant
            from <= k <= to <= s@.len(),
            out@ == old(out)@ + s@.subrange(from as int, k as int),
        decreases to - k,
    {
        let c = s.get_char(k);
        string_push(out, c);
        k = k + 1;
        assert(out@ =~= old(out)@ + s@.subrange(from as int, k as int));
    }
}

/// Writes a non-negative integer with a comma between each group of three
/// digits, counted from the right.
pub fn format_with_commas(n: u64) -> (r: String)
    ensures
        r@ == group_thousands(nat_digits(n as nat)),
{
    let s = u128_to_string(n as u128);
    let d = s.as_str();
    let len = d.unicode_len();
    if len <= 3 {
        return s;
    }
    let first: usize = if len % 3 == 0 {
        3
    } else {
        len % 3
    };
    let mut out = String::new();
    push_chars(&mut out, d, 0, first);
    assert(out@ =~= d@.subrange(0, first as int));
    let mut j: usize = first;
    while j < len
        invariant
            1 <= first <= 3,
            first <= j <= len,
            len == d@.len(),
            (len - j) % 3 == 0,
            out@ == group_thousands(d@.subrange(0, j as int)),
        decreases len - j,
    {
        string_push(&mut out, ',');
        push_chars(&mut out, d, j, j + 3);
        proof {
            let t = d@.subrange(0, j + 3);
            assert(t.subrange(0, t.len() - 3) =~= d@.subrange(0, j as int));
            assert(t.subrange(t.len() - 3, t.len() as int) =~= d@.subrange(j as int, j + 3));
        }
        j = j + 3;
    }
    assert(d@.subrange(0, len as int) =~= d@);
    out
}

/// `|v|` as a natural number.
pub open spec fn abs_nat(v: int) -> nat {
    if v < 0 {
        (-v) as nat
    } else {
        v as nat
    }
}

/// An amount of minor units written with `dp` decimal places and thousands
/// separators in the whole part, such as `-1,234.56`.
pub open spec fn amount_text(v: int, dp: nat) -> Seq<char> {
    let a = abs_nat(v);
    let body = if dp == 0 {
        group_thousands(nat_digits(a))
    } else {
        group_thousands(nat_digits(a / pow10(dp))) + seq!['.'] + padded_digits(
            a % pow10(dp),
            dp,
        )
    };
    if v < 0 {
        seq!['-'] + body
    } else {
        body
    }
}

/// Formats minor units as a human-readable amount with thousands
/// separators and `decimal_places` decimals: `1,234.56` for `123456` with
/// two places, `5,000` for `5000` with none.
pub fn format_amount(minor_units: i64, decimal_places: u8) -> (r: String)
    requires
        decimal_places <= 19,
    ensures
        r@ == amount_text(minor_units as int, decimal_places as nat),
{
    let negative = minor_units < 0;
    let abs_units: u64 = if minor_units == i64::MIN {
        0x8000_0000_0000_0000u64
    } else if minor_units < 0 {
        (-minor_units) as u64
    } else {
        minor_units as u64
    };
    proof {
        lemma_pow10_38();
        lemma_pow10_monotone(decimal_places as nat, 19);
        lemma_pow10_pos(decimal_places as nat);
    }
    let divisor: u64 = pow10_u128(decimal_places as u32) as u64;
    let whole = abs_units / divisor;
    let frac = abs_units % divisor;
    assert(abs_units as nat == abs_nat(minor_units as int));
    assert(whole as nat == abs_nat(minor_units as int) / pow10(decimal_places as nat));
    assert(frac as nat == abs_nat(minor_units as int) % pow10(decimal_places as nat));
    let whole_str = format_with_commas(whole);
    let mut out = String::new();
    if negative {
        string_push(&mut out, '-');
    }
    out.append(whole_str.as_str());
    if decimal_places > 0 {
        string_push(&mut out, '.');
        push_padded_digits(&mut out, frac as u128, decimal_places as usize);
    }
    proof {
        if decimal_places == 0 {
            assert(pow10(0) == 1);
            assert(whole == abs_units) by (nonlinear_arith)
                requires
                    divisor == 1,
                    whole == abs_units / divisor,
            ;
        }
    }
    assert(out@ =~= amount_text(minor_units as int, decimal_places as nat));
    out
}

/// The styles used in human-readable output.
#[derive(Debug, Clone, Copy, PartialEq, Eq, Structural)]
pub enum TextStyle {
    /// Bold text.
    Bold,
    /// Dimmed text.
    Dim,
    /// Cyan text.
    Cyan,
    /// Green text.
    Green,
    /// Bold red text.
    RedBold,
}

/// The ANSI escape that opens a style: its effects (`1` bold, `2` dim),
/// then its foreground colour (`31` red, `32` green, `36` cyan).
pub open spec fn style_escape(s: TextStyle) -> Seq<char> {
    match s {
        TextStyle::Bold => seq!['\x1b', '[', '1', 'm'],
        TextStyle::Dim => seq!['\x1b', '[', '2', 'm'],
        TextStyle::Cyan => seq!['\x1b', '[', '3', '6', 'm'],
        TextStyle::Green => seq!['\x1b', '[', '3', '2', 'm'],
        TextStyle::RedBold => seq!['\x1b', '[', '1', 'm', '\x1b', '[', '3', '1', 'm'],
    }
}

/// The ANSI escape that resets all styles.
pub open spec fn reset_escape() -> Seq<char> {
    seq!['\x1b', '[', '0', 'm']
}

/// The escape that `anstyle::Style`'s `Display` writes for each text
/// style, built as `Style::new()` with `bold()`, `dimmed()` or a
/// foreground `AnsiColor`: each effect as `ESC[nm`, then the foreground
/// colour as `ESC[3nm`.
#[verifier::external_body]
fn style_escape_text(style: TextStyle) -> (r: String)
    ensures
        r@ == style_escape(style),
{
    let s = match style {
        TextStyle::Bold => anstyle::Style::new().bold(),
        TextStyle::Dim => anstyle::Style::new().dimmed(),
        TextStyle::Cyan => anstyle::Style::new().fg_color(Some(anstyle::Color::Ansi(anstyle::AnsiColor::Cyan))),
        TextStyle::Green => anstyle::Style::new().fg_color(Some(anstyle::Color::Ansi(anstyle::AnsiColor::Green))),
        TextStyle::RedBold => anstyle::Style::new().fg_color(Some(anstyle::Color::Ansi(anstyle::AnsiColor::Red))).bold(),
    };
    format!("{s}")
}

/// What `anstyle::Reset`'s `Display` writes: `ESC[0m`.
#[verifier::external_body]
fn reset_escape_text() -> (r: String)
    ensures
        r@ == reset_escape(),
{
    format!("{}", anstyle::Reset)
}

/// `text` wrapped in the escapes of `style` when colours are on.
pub open spec fn styled_text(text: Seq<char>, style: TextStyle, use_color: bool) -> Seq<char> {
    if use_color {
        style_escape(style) + text + reset_escape()
    } else {
        text
    }
}

/// Wraps `text` in the ANSI escapes of `style` if colours are enabled.
pub fn styled(text: &str, style: TextStyle, use_color: bool) -> (r: String)
    ensures
        r@ == styled_text(text@, style, use_color),
{
    if use_color {
        let mut out = style_escape_text(style);
        out.append(text);
        let reset = reset_escape_text();
        out.append(reset.as_str());
        out
    } else {
        text.to_string()
    }
}

/// The normal-balance label of a lowercase account type.
pub open spec fn normal_balance_label_text(account_type: Seq<char>) -> Seq<char> {
    if account_type == "asset"@ || account_type == "expense"@ {
        "Debit"@
    } else if account_type == "liability"@ || account_type == "equity"@ || account_type
        == "revenue"@ {
        "Credit"@
    } else {
        "Unknown"@
    }
}

/// Derives the normal-balance label from a lowercase account type:
/// `Debit`, `Credit` or `Unknown`.
pub fn normal_balance_label(account_type: &str) -> (r: &'static str)
    ensures
        r@ == normal_balance_label_text(account_type@),
{
    if str_eq(account_type, "asset") || str_eq(account_type, "expense") {
        "Debit"
    } else if str_eq(account_type, "liability") || str_eq(account_type, "equity") || str_eq(
        account_type,
        "revenue",
    ) {
        "Credit"
    } else {
        "Unknown"
    }
}

/// The uppercase mapping of a character, as `char::to_uppercase` gives it
/// (one or more characters, from the Unicode tables of the standard
/// library).
pub uninterp spec fn char_uppercase(c: char) -> Seq<char>;

/// `char::to_uppercase`, collected into a string. Its result is named
/// `char_uppercase`; for an ASCII lowercase letter the documentation gives
/// the ASCII uppercase letter.
#[verifier::external_body]
fn uppercase_of(c: char) -> (r: String)
    ensures
        r@ == char_uppercase(c),
        ('a' <= c <= 'z') ==> r@ == seq![((c as u32) - 32) as char],
{
    c.to_uppercase().collect()
}

/// `s` with its first character in uppercase.
pub open spec fn capitalized(s: Seq<char>) -> Seq<char> {
    if s.len() == 0 {
        s
    } else {
        char_uppercase(s[0]) + s.drop_first()
    }
}

/// Capitalises the first letter of a string.
pub fn capitalize_first(s: &str) -> (r: String)
    ensures
        r@ == capitalized(s@),
{
    let n = s.unicode_len();
    if n == 0 {
        return String::new();
    }
    let mut out = uppercase_of(s.get_char(0));
    push_chars(&mut out, s, 1, n);
    assert(s@.subrange(1, n as int) =~= s@.drop_first());
    out
}

/// The debit and credit totals of a transaction's entries, each a running
/// sum that saturates at the bounds of `i64`; an entry whose direction is
/// not `debit` counts as a credit.
pub open spec fn entry_totals(es: Seq<EntryRow>) -> (int, int)
    decreases es.len(),
{
    if es.len() == 0 {
        (0, 0)
    } else {
        let (d, c) = entry_totals(es.drop_last());
        let e = es.last();
        if e.direction@ == "debit"@ {
            (clamp_i64(d + e.amount), c)
        } else {
            (d, clamp_i64(c + e.amount))
        }
    }
}

/// The optional `  (memo)` after an entry line.
pub open spec fn memo_suffix(memo: Option<String>) -> Seq<char> {
    match memo {
        Some(m) => "  ("@ + m@ + ")"@,
        None => Seq::empty(),
    }
}

/// The optional `  [category]` after an entry line.
pub open spec fn tax_suffix(category: Option<String>) -> Seq<char> {
    match category {
        Some(c) => "  ["@ + c@ + "]"@,
        None => Seq::empty(),
    }
}

/// One entry line of a transaction detail: `DR` or `CR`, the account code
/// and the amount, with the optional memo and tax category.
pub open spec fn entry_line(e: EntryRow, dp: nat, use_color: bool) -> Seq<char> {
    let debit = e.direction@ == "debit"@;
    "    "@ + styled_text(
        if debit {
            "DR"@
        } else {
            "CR"@
        },
        if debit {
            TextStyle::Cyan
        } else {
            TextStyle::Dim
        },
        use_color,
    ) + " "@ + styled_text(e.account_code@, TextStyle::Cyan, use_color) + "  "@ + amount_text(
        e.amount as int,
        dp,
    ) + memo_suffix(e.memo) + tax_suffix(e.tax_category)
}

/// The lines of a transaction detail view.
pub open spec fn detail_lines(txn: TransactionRow, es: Seq<EntryRow>, dp: nat, use_color: bool) -> Seq<
    Seq<char>,
> {
    let (d, c) = entry_totals(es);
    seq![
        styled_text("Transaction Detail"@, TextStyle::Bold, use_color),
        "  ID:          "@ + styled_text(int_decimal(txn.id as int), TextStyle::Cyan, use_color),
        "  Date:        "@ + txn.date@,
        "  Description: "@ + txn.description@,
        "  Currency:    "@ + txn.currency@,
    ] + match txn.metadata {
        Some(m) => seq!["  Metadata:    "@ + styled_text(m@, TextStyle::Dim, use_color)],
        None => Seq::empty(),
    } + match txn.reference {
        Some(r) => seq!["  Reference:   "@ + styled_text(r@, TextStyle::Dim, use_color)],
        None => Seq::empty(),
    } + seq![
        "  Posted at:   "@ + styled_text(txn.posted_at@, TextStyle::Dim, use_color),
        Seq::empty(),
        styled_text("  Entries:"@, TextStyle::Bold, use_color),
    ] + es.map_values(|e: EntryRow| entry_line(e, dp, use_color)) + seq![
        Seq::empty(),
        "  Total Debits:  "@ + amount_text(d, dp),
        "  Total Credits: "@ + amount_text(c, dp),
        if d == c {
            styled_text("  [ok] BALANCED"@, TextStyle::Green, use_color)
        } else {
            styled_text("  [!!] UNBALANCED"@, TextStyle::RedBold, use_color)
        },
    ]
}

/// Pushes `head` followed by `text` styled, as one line.
fn push_labelled(lines: &mut Vec<String>, head: &str, text: &str, style: TextStyle, use_color: bool)
    ensures
        string_views(final(lines)@) == string_views(old(lines)@).push(
            head@ + styled_text(text@, style, use_color),
        ),
{
    let mut line = head.to_string();
    let st = styled(text, style, use_color);
    line.append(st.as_str());
    lines.push(line);
    assert(string_views(lines@) =~= string_views(old(lines)@).push(
        head@ + styled_text(text@, style, use_color),
    ));
}

/// Pushes `head` followed by `text`, as one line.
fn push_plain(lines: &mut Vec<String>, head: &str, text: &str)
    ensures
        string_views(final(lines)@) == string_views(old(lines)@).push(head@ + text@),
{
    let mut line = head.to_string();
    line.append(text);
    lines.push(line);
    assert(string_views(lines@) =~= string_views(old(lines)@).push(head@ + text@));
}

/// Pushes a line.
pub(crate) fn push_line(lines: &mut Vec<String>, line: String)
    ensures
        string_views(final(lines)@) == string_views(old(lines)@).push(line@),
{
    let ghost l = line@;
    lines.push(line);
    assert(string_views(lines@) =~= string_views(old(lines)@).push(l));
}

/// Writes one entry line of a transaction detail.
fn entry_line_text(e: &EntryRow, dp: u8, use_color: bool) -> (r: String)
    requires
        dp <= 19,
    ensures
        r@ == entry_line(*e, dp as nat, use_color),
{
    let debit = str_eq(e.direction.as_str(), "debit");
    let mut line = "    ".to_string();
    let prefix = if debit {
        styled("DR", TextStyle::Cyan, use_color)
    } else {
        styled("CR", TextStyle::Dim, use_color)
    };
    line.append(prefix.as_str());
    push_str(&mut line, " ");
    let code = styled(e.account_code.as_str(), TextStyle::Cyan, use_color);
    line.append(code.as_str());
    push_str(&mut line, "  ");
    let amount = format_amount(e.amount, dp);
    line.append(amount.as_str());
    if let Some(m) = &e.memo {
        push_str(&mut line, "  (");
        line.append(m.as_str());
        push_str(&mut line, ")");
    }
    if let Some(c) = &e.tax_category {
        push_str(&mut line, "  [");
        line.append(c.as_str());
        push_str(&mut line, "]");
    }
    assert(line@ =~= entry_line(*e, dp as nat, use_color));
    line
}

/// Renders a single transaction in detail: its fields, one line per entry,
/// the debit and credit totals, and whether they balance.
pub fn render_transaction_detail(
    txn: &TransactionRow,
    entries: &[EntryRow],
    currency_minor_units: u8,
    use_color: bool,
) -> (r: String)
    requires
        currency_minor_units <= 19,
    ensures
        r@ == join_lines(detail_lines(*txn, entries@, currency_minor_units as nat, use_color)),
{
    let dp = currency_minor_units;
    let mut lines: Vec<String> = Vec::new();
    push_line(&mut lines, styled("Transaction Detail", TextStyle::Bold, use_color));
    let id = i128_to_string(txn.id as i128);
    push_labelled(&mut lines, "  ID:          ", id.as_str(), TextStyle::Cyan, use_color);
    push_plain(&mut lines, "  Date:        ", txn.date.as_str());
    push_plain(&mut lines, "  Description: ", txn.description.as_str());
    push_plain(&mut lines, "  Currency:    ", txn.currency.as_str());
    if let Some(m) = &txn.metadata {
        push_labelled(&mut lines, "  Metadata:    ", m.as_str(), TextStyle::Dim, use_color);
    }
    if let Some(rf) = &txn.reference {
        push_labelled(&mut lines, "  Reference:   ", rf.as_str(), TextStyle::Dim, use_color);
    }
    push_labelled(&mut lines, "  Posted at:   ", txn.posted_at.as_str(), TextStyle::Dim, use_color);
    push_line(&mut lines, String::new());
    push_line(&mut lines, styled("  Entries:", TextStyle::Bold, use_color));
    let ghost head = string_views(lines@);
    let mut total_debits: i64 = 0;
    let mut total_credits: i64 = 0;
    let mut i: usize = 0;
    while i < entries.len()
        invariant
            i <= entries@.len(),
            dp <= 19,
            dp == currency_minor_units,
            string_views(lines@) == head + entries@.take(i as int).map_values(
                |e: EntryRow| entry_line(e, dp as nat, use_color),
            ),
            (total_debits as int, total_credits as int) == entry_totals(entries@.take(i as int)),
        decreases entries@.len() - i,
    {
        let e = &entries[i];
        if str_eq(e.direction.as_str(), "debit") {
            total_debits = saturating_add_i64(total_debits, e.amount);
        } else {
            total_credits = saturating_add_i64(total_credits, e.amount);
        }
        push_line(&mut lines, entry_line_text(e, dp, use_color));
        proof {
            let t = entries@.take(i + 1);
            assert(t.drop_last() =~= entries@.take(i as int));
            assert(t.last() == *e);
            assert(t.map_values(|e: EntryRow| entry_line(e, dp as nat, use_color)) =~= entries@.take(
                i as int,
            ).map_values(|e: EntryRow| entry_line(e, dp as nat, use_color)).push(
                entry_line(*e, dp as nat, use_color),
            ));
        }
        i = i + 1;
    }
    assert(entries@.take(i as int) =~= entries@);
    push_line(&mut lines, String::new());
    push_plain(&mut lines, "  Total Debits:  ", format_amount(total_debits, dp).as_str());
    push_plain(&mut lines, "  Total Credits: ", format_amount(total_credits, dp).as_str());
    if total_debits == total_credits {
        push_line(&mut lines, styled("  [ok] BALANCED", TextStyle::Green, use_color));
    } else {
        push_line(&mut lines, styled("  [!!] UNBALANCED", TextStyle::RedBold, use_color));
    }
    proof {
        reveal_strlit("");
    }
    assert(string_views(lines@) =~= detail_lines(*txn, entries@, dp as nat, use_color));
    join_with_newlines(&lines)
}

/// Parameters for rendering an account balance.
pub struct AccountBalanceParams<'a> {
    /// Account code.
    pub code: &'a str,
    /// Account name.
    pub name: &'a str,
    /// Account type (lowercase, e.g. "asset").
    pub account_type: &'a str,
    /// Total debits in minor units.
    pub debit_total: i64,
    /// Total credits in minor units.
    pub credit_total: i64,
    /// Currency code (e.g. "USD").
    pub currency_code: &'a str,
    /// Number of decimal places for the currency.
    pub currency_minor_units: u8,
    /// Whether to emit ANSI colour codes.
    pub use_color: bool,
}

/// The net balance of an account: debits less credits for debit-normal
/// types (assets and expenses), credits less debits for all others,
/// saturating at the bounds of `i64`.
pub open spec fn net_balance(account_type: Seq<char>, debits: int, credits: int) -> int {
    if account_type == "asset"@ || account_type == "expense"@ {
        clamp_i64(debits - credits)
    } else {
        clamp_i64(credits - debits)
    }
}

/// The lines of an account balance view.
pub open spec fn account_balance_lines(p: AccountBalanceParams) -> Seq<Seq<char>> {
    let dp = p.currency_minor_units as nat;
    let cur = p.currency_code@;
    seq![
        styled_text("Account Balance"@, TextStyle::Bold, p.use_color),
        "  Code:    "@ + styled_text(p.code@, TextStyle::Cyan, p.use_color),
        "  Name:    "@ + p.name@,
        "  Type:    "@ + capitalized(p.account_type@),
        "  Normal:  "@ + normal_balance_label_text(p.account_type@),
        Seq::empty(),
        "  Debits:  "@ + amount_text(p.debit_total as int, dp) + " "@ + cur,
        "  Credits: "@ + amount_text(p.credit_total as int, dp) + " "@ + cur,
        "  Balance: "@ + amount_text(
            net_balance(p.account_type@, p.debit_total as int, p.credit_total as int),
            dp,
        ) + " "@ + cur,
    ]
}

/// Pushes `head`, an amount, a space and the currency, as one line.
fn push_amount_line(lines: &mut Vec<String>, head: &str, amount: i64, dp: u8, currency: &str)
    requires
        dp <= 19,
    ensures
        string_views(final(lines)@) == string_views(old(lines)@).push(
            head@ + amount_text(amount as int, dp as nat) + " "@ + currency@,
        ),
{
    let mut line = head.to_string();
    let a = format_amount(amount, dp);
    line.append(a.as_str());
    push_str(&mut line, " ");
    line.append(currency);
    push_line(lines, line);
}

/// Renders a single account's balance summary: code, name, type, normal
/// side, debit and credit totals, and the net balance on the account's
/// normal side.
pub fn render_account_balance(p: &AccountBalanceParams) -> (r: String)
    requires
        p.currency_minor_units <= 19,
    ensures
        r@ == join_lines(account_balance_lines(*p)),
{
    let use_color = p.use_color;
    let dp = p.currency_minor_units;
    let mut lines: Vec<String> = Vec::new();
    push_line(&mut lines, styled("Account Balance", TextStyle::Bold, use_color));
    push_labelled(&mut lines, "  Code:    ", p.code, TextStyle::Cyan, use_color);
    push_plain(&mut lines, "  Name:    ", p.name);
    push_plain(&mut lines, "  Type:    ", capitalize_first(p.account_type).as_str());
    push_plain(&mut lines, "  Normal:  ", normal_balance_label(p.account_type));
    push_line(&mut lines, String::new());
    push_amount_line(&mut lines, "  Debits:  ", p.debit_total, dp, p.currency_code);
    push_amount_line(&mut lines, "  Credits: ", p.credit_total, dp, p.currency_code);
    let net = if str_eq(p.account_type, "asset") || str_eq(p.account_type, "expense") {
        saturating_sub_i64(p.debit_total, p.credit_total)
    } else {
        saturating_sub_i64(p.credit_total, p.debit_total)
    };
    push_amount_line(&mut lines, "  Balance: ", net, dp, p.currency_code);
    proof {
        reveal_strlit("");
    }
    assert(string_views(lines@) =~= account_balance_lines(*p));
    join_with_newlines(&lines)
}

/// Whether an attachment's hash, if any, can be shortened.
pub open spec fn attachment_cuttable(a: AttachmentRow) -> bool {
    match a.hash {
        Some(h) => hash_cuttable(h@),
        None => true,
    }
}

/// The line of one attachment: its document type, its file name (or
/// `(no filename)`) and the start of its hash.
pub open spec fn attachment_line(a: AttachmentRow, use_color: bool) -> Seq<char> {
    "    ["@ + styled_text(a.document_type@, TextStyle::Cyan, use_color) + "] "@ + match a.original_filename {
        Some(f) => f@,
        None => "(no filename)"@,
    } + match a.hash {
        Some(h) => "  ("@ + short_hash(h@) + ")"@,
        None => Seq::empty(),
    }
}

/// The lines of an attachment list.
pub open spec fn attachment_lines(atts: Seq<AttachmentRow>, use_color: bool) -> Seq<Seq<char>> {
    seq![styled_text("  Attachments:"@, TextStyle::Bold, use_color)] + atts.map_values(
        |a: AttachmentRow| attachment_line(a, use_color),
    )
}

/// Writes the line of one attachment.
fn attachment_line_text(a: &AttachmentRow, use_color: bool) -> (r: String)
    requires
        attachment_cuttable(*a),
    ensures
        r@ == attachment_line(*a, use_color),
{
    let mut line = "    [".to_string();
    let t = styled(a.document_type.as_str(), TextStyle::Cyan, use_color);
    line.append(t.as_str());
    push_str(&mut line, "] ");
    match &a.original_filename {
        Some(f) => line.append(f.as_str()),
        None => push_str(&mut line, "(no filename)"),
    }
    if let Some(h) = &a.hash {
        let hs = h.as_str();
        let n = hs.as_bytes().len();
        let cut: usize = if n < 12 {
            n
        } else {
            12
        };
        proof {
            vstd::utf8::encode_utf8_valid_utf8(hs@);
            vstd::utf8::is_char_boundary_start_end_of_seq(vstd::utf8::encode_utf8(hs@));
            assert(hash_cuttable(hs@));
            assert(n as int == vstd::utf8::encode_utf8(hs@).len());
        }
        let (short, _) = hs.split_at(cut);
        proof {
            vstd::utf8::encode_utf8_decode_utf8(short@);
            assert(vstd::utf8::encode_utf8(short@) =~= vstd::utf8::encode_utf8(hs@).take(cut as int));
        }
        push_str(&mut line, "  (");
        line.append(short);
        push_str(&mut line, ")");
    }
    assert(line@ =~= attachment_line(*a, use_color));
    line
}

/// Renders a list of attachments as a section below transaction details.
pub fn render_attachments(attachments: &[AttachmentRow], use_color: bool) -> (r: String)
    requires
        forall|i: int|
            0 <= i < attachments@.len() ==> attachment_cuttable(#[trigger] attachments@[i]),
    ensures
        r@ == join_lines(attachment_lines(attachments@, use_color)),
{
    let mut lines: Vec<String> = Vec::new();
    push_line(&mut lines, styled("  Attachments:", TextStyle::Bold, use_color));
    let mut i: usize = 0;
    while i < attachments.len()
        invariant
            i <= attachments@.len(),
            forall|k: int|
                0 <= k < attachments@.len() ==> attachment_cuttable(#[trigger] attachments@[k]),
            string_views(lines@) == seq![styled_text("  Attachments:"@, TextStyle::Bold, use_color)]
                + attachments@.take(i as int).map_values(
                |a: AttachmentRow| attachment_line(a, use_color),
            ),
        decreases attachments@.len() - i,
    {
        let a = &attachments[i];
        push_line(&mut lines, attachment_line_text(a, use_color));
        proof {
            let f = |a: AttachmentRow| attachment_line(a, use_color);
            assert(attachments@.take(i + 1).map_values(f) =~= attachments@.take(i as int).map_values(
                f,
            ).push(attachment_line(*a, use_color)));
        }
        i = i + 1;
    }
    assert(attachments@.take(i as int) =~= attachments@);
    join_with_newlines(&lines)
}

/// A table cell as plain values: its text, and whether it is aligned to
/// the right (else to the left).
pub type GridCell = (Seq<char>, bool);

/// The border style of a table.
#[derive(Debug, Clone, Copy, PartialEq, Eq, Structural)]
pub enum GridStyle {
    /// Full UTF-8 borders with rounded corners.
    Rounded,
    /// `comfy_table`'s default ASCII borders.
    Plain,
}

/// The plain values of a row of cells.
pub open spec fn cells_view(row: Seq<(String, bool)>) -> Seq<GridCell> {
    row.map_values(|c: (String, bool)| (c.0@, c.1))
}

/// The plain values of rows of cells.
pub open spec fn rows_view(rows: Seq<Vec<(String, bool)>>) -> Seq<Seq<GridCell>> {
    rows.map_values(|r: Vec<(String, bool)>| cells_view(r@))
}

/// Header texts, each styled bold when colours are on.
pub open spec fn bold_header(texts: Seq<Seq<char>>, use_color: bool) -> Seq<Seq<char>> {
    texts.map_values(|t: Seq<char>| styled_text(t, TextStyle::Bold, use_color))
}

/// The text `comfy_table` lays a table out as: the header and rows in the
/// style, arranged dynamically to `width` columns, or not wrapped at all
/// without a width.
pub uninterp spec fn grid_text(
    header: Seq<Seq<char>>,
    rows: Seq<Seq<GridCell>>,
    style: GridStyle,
    width: Option<u16>,
) -> Seq<char>;

/// Lays a table out with `comfy_table`: a `Table` in the style (UTF-8 with
/// rounded corners, or the crate's default `ASCII_FULL`), with dynamic
/// content arrangement, the header and rows of plain cells aligned as
/// given, and `width` as its width when there is one. `force_no_tty` keeps
/// the table from consulting the terminal, so the text is a function of
/// these arguments.
#[verifier::external_body]
pub(crate) fn render_grid(header: &Vec<String>, rows: &Vec<Vec<(String, bool)>>, style: GridStyle, width: Option<u16>) -> (r: String)
    ensures
        r@ == grid_text(string_views(header@), rows_view(rows@), style, width),
{
    let mut table = Table::new();
    table.load_style(match style {
        GridStyle::Rounded => UTF8_FULL.with_rounded_corners(),
        GridStyle::Plain => ASCII_FULL,
    });
    table.set_content_arrangement(ContentArrangement::Dynamic).force_no_tty();
    if let Some(w) = width {
        table.set_width(w);
    }
    table.set_header(header.iter().map(Cell::new));
    for row in rows {
        let align = |right: bool| if right { CellAlignment::Right } else { CellAlignment::Left };
        table.add_row(row.iter().map(|(t, right)| Cell::new(t).set_alignment(align(*right))));
    }
    table.to_string()
}

/// The width `comfy_table` lays a new table out to (`Table::width`): the
/// terminal's width when standard output is a terminal whose size can be
/// read, else none. It depends on the environment, so nothing is stated
/// of it.
#[verifier::external_body]
pub(crate) fn terminal_width() -> Option<u16> {
    comfy_table::Table::new().width()
}

/// Pushing a row adds its plain values to those of the rows.
pub(crate) proof fn lemma_rows_push(rows: Seq<Vec<(String, bool)>>, row: Vec<(String, bool)>)
    ensures
        rows_view(rows.push(row)) == rows_view(rows).push(cells_view(row@)),
{
    assert(rows_view(rows.push(row)) =~= rows_view(rows).push(cells_view(row@)));
}

/// The image of one more element of a prefix.
pub(crate) proof fn lemma_take_map_push<A, B>(xs: Seq<A>, i: int, f: spec_fn(A) -> B)
    requires
        0 <= i < xs.len(),
    ensures
        xs.take(i + 1).map_values(f) == xs.take(i).map_values(f).push(f(xs[i])),
{
    assert(xs.take(i + 1).map_values(f) =~= xs.take(i).map_values(f).push(f(xs[i])));
}

/// Header texts, each styled bold when colours are on.
pub(crate) fn bold_cells(texts: Vec<&str>, use_color: bool) -> (r: Vec<String>)
    ensures
        string_views(r@) == bold_header(texts@.map_values(|t: &str| t@), use_color),
{
    let mut cells: Vec<String> = Vec::new();
    let mut i: usize = 0;
    while i < texts.len()
        invariant
            i <= texts@.len(),
            string_views(cells@) == bold_header(texts@.take(i as int).map_values(|t: &str| t@), use_color),
        decreases texts@.len() - i,
    {
        let ghost before = cells@;
        let c = styled(texts[i], TextStyle::Bold, use_color);
        cells.push(c);
        proof {
            let prev = texts@.take(i as int).map_values(|t: &str| t@);
            assert(texts@.take(i + 1).map_values(|t: &str| t@) =~= prev.push(texts@[i as int]@));
            assert(string_views(cells@) =~= string_views(before).push(c@));
            assert(bold_header(prev.push(texts@[i as int]@), use_color) =~= bold_header(prev, use_color).push(
                styled_text(texts@[i as int]@, TextStyle::Bold, use_color),
            ));
        }
        i = i + 1;
    }
    assert(texts@.take(i as int) =~= texts@);
    cells
}

/// `count` followed by the singular noun when it is one, the plural
/// otherwise.
pub open spec fn count_text(count: int, singular: Seq<char>, plural: Seq<char>) -> Seq<char> {
    int_decimal(count) + " "@ + if count == 1 {
        singular
    } else {
        plural
    }
}

/// Appends `count` and the fitting noun.
fn push_count(out: &mut String, count: usize, singular: &str, plural: &str)
    ensures
        final(out)@ == old(out)@ + count_text(count as int, singular@, plural@),
{
    let n = i128_to_string(count as i128);
    out.append(n.as_str());
    push_str(out, " ");
    if count == 1 {
        out.append(singular);
    } else {
        out.append(plural);
    }
}

/// A table's text, two newlines, and the count of its rows.
fn finish_listing(text: String, count: usize, singular: &str, plural: &str) -> (r: String)
    ensures
        r@ == text@ + "\n\n"@ + count_text(count as int, singular@, plural@),
{
    let mut out = text;
    push_str(&mut out, "\n\n");
    push_count(&mut out, count, singular, plural);
    out
}

/// An optional text, or the empty text when there is none.
pub open spec fn text_or_empty(o: Option<String>) -> Seq<char> {
    match o {
        Some(s) => s@,
        None => Seq::empty(),
    }
}

/// The cells of one row of the company (slug, name, description, creation time)
/// table.
pub open spec fn company_cells(x: CompanyRow, use_color: bool) -> Seq<GridCell> {
    seq![
        (styled_text(x.slug@, TextStyle::Cyan, use_color), false),
        (x.name@, false),
        (text_or_empty(x.description), false),
        (styled_text(x.created_at@, TextStyle::Dim, use_color), false),
    ]
}

/// The company (slug, name, description, creation time) listing at a width: the
/// message when there are none, else the table and the count.
pub open spec fn companies_listing(xs: Seq<CompanyRow>, use_color: bool, width: Option<u16>) -> Seq<char> {
    if xs.len() == 0 {
        "No companies found."@
    } else {
        grid_text(
            bold_header(seq!["Slug"@, "Name"@, "Description"@, "Created"@], use_color),
            xs.map_values(|x: CompanyRow| company_cells(x, use_color)),
            GridStyle::Rounded,
            width,
        ) + "\n\n"@ + count_text(xs.len() as int, "company"@, "companies"@)
    }
}

/// Renders the company (slug, name, description, creation time) listing laid
/// out to `width`.
pub fn render_companies_at(companies: &[CompanyRow], use_color: bool, width: Option<u16>) -> (r: String)
    ensures
        r@ == companies_listing(companies@, use_color, width),
{
    if companies.len() == 0 {
        return "No companies found.".to_string();
    }
    let names = vec!["Slug", "Name", "Description", "Created"];
    assert(names@.map_values(|t: &str| t@) =~= seq!["Slug"@, "Name"@, "Description"@, "Created"@]);
    let header = bold_cells(names, use_color);
    let mut rows: Vec<Vec<(String, bool)>> = Vec::new();
    let mut i: usize = 0;
    while i < companies.len()
        invariant
            i <= companies@.len(),
            rows_view(rows@) == companies@.take(i as int).map_values(|x: CompanyRow| company_cells(x, use_color)),
        decreases companies@.len() - i,
    {
        let x = &companies[i];
        let desc = match &x.description {
            Some(d) => d.clone(),
            None => String::new(),
        };
        let row = vec![
            (styled(x.slug.as_str(), TextStyle::Cyan, use_color), false),
            (x.name.clone(), false),
            (desc, false),
            (styled(x.created_at.as_str(), TextStyle::Dim, use_color), false),
        ];
        proof {
            assert(cells_view(row@) =~= company_cells(*x, use_color));
            lemma_rows_push(rows@, row);
            lemma_take_map_push(companies@, i as int, |x: CompanyRow| company_cells(x, use_color));
        }
        rows.push(row);
        i = i + 1;
    }
    assert(companies@.take(i as int) =~= companies@);
    finish_listing(render_grid(&header, &rows, GridStyle::Rounded, width), companies.len(), "company", "companies")
}

/// Renders the company (slug, name, description, creation time) listing to the
/// terminal's width: the message when there are none, else the table followed
/// by the count.
pub fn render_companies(companies: &[CompanyRow], use_color: bool) -> (r: String)
    ensures
        companies@.len() == 0 ==> r@ == "No companies found."@,
        exists|w: Option<u16>| r@ == companies_listing(companies@, use_color, w),
{
    render_companies_at(companies, use_color, terminal_width())
}

/// The cells of one row of the account (code, name, type, normal balance)
/// table.
pub open spec fn account_cells(x: AccountRow, use_color: bool) -> Seq<GridCell> {
    seq![
        (styled_text(x.code@, TextStyle::Cyan, use_color), false),
        (x.name@, false),
        (capitalized(x.account_type@), false),
        (normal_balance_label_text(x.account_type@), false),
    ]
}

/// The account (code, name, type, normal balance) listing at a width: the
/// message when there are none, else the table and the count.
pub open spec fn accounts_listing(xs: Seq<AccountRow>, use_color: bool, width: Option<u16>) -> Seq<char> {
    if xs.len() == 0 {
        "No accounts found."@
    } else {
        grid_text(
            bold_header(seq!["Code"@, "Name"@, "Type"@, "Normal Balance"@], use_color),
            xs.map_values(|x: AccountRow| account_cells(x, use_color)),
            GridStyle::Rounded,
            width,
        ) + "\n\n"@ + count_text(xs.len() as int, "account"@, "accounts"@)
    }
}

/// Renders the account (code, name, type, normal balance) listing laid out to
/// `width`.
pub fn render_accounts_at(accounts: &[AccountRow], use_color: bool, width: Option<u16>) -> (r: String)
    ensures
        r@ == accounts_listing(accounts@, use_color, width),
{
    if accounts.len() == 0 {
        return "No accounts found.".to_string();
    }
    let names = vec!["Code", "Name", "Type", "Normal Balance"];
    assert(names@.map_values(|t: &str| t@) =~= seq!["Code"@, "Name"@, "Type"@, "Normal Balance"@]);
    let header = bold_cells(names, use_color);
    let mut rows: Vec<Vec<(String, bool)>> = Vec::new();
    let mut i: usize = 0;
    while i < accounts.len()
        invariant
            i <= accounts@.len(),
            rows_view(rows@) == accounts@.take(i as int).map_values(|x: AccountRow| account_cells(x, use_color)),
        decreases accounts@.len() - i,
    {
        let x = &accounts[i];
        let row = vec![
            (styled(x.code.as_str(), TextStyle::Cyan, use_color), false),
            (x.name.clone(), false),
            (capitalize_first(x.account_type.as_str()), false),
            (normal_balance_label(x.account_type.as_str()).to_string(), false),
        ];
        proof {
            assert(cells_view(row@) =~= account_cells(*x, use_color));
            lemma_rows_push(rows@, row);
            lemma_take_map_push(accounts@, i as int, |x: AccountRow| account_cells(x, use_color));
        }
        rows.push(row);
        i = i + 1;
    }
    assert(accounts@.take(i as int) =~= accounts@);
    finish_listing(render_grid(&header, &rows, GridStyle::Rounded, width), accounts.len(), "account", "accounts")
}

/// Renders the account (code, name, type, normal balance) listing to the
/// terminal's width: the message when there are none, else the table followed
/// by the count.
pub fn render_accounts(accounts: &[AccountRow], use_color: bool) -> (r: String)
    ensures
        accounts@.len() == 0 ==> r@ == "No accounts found."@,
        exists|w: Option<u16>| r@ == accounts_listing(accounts@, use_color, w),
{
    render_accounts_at(accounts, use_color, terminal_width())
}

/// The cells of one row of the account balance (code, name, type, debit and
/// credit totals) table.
pub open spec fn balance_account_cells(x: AccountWithBalanceRow, use_color: bool) -> Seq<GridCell> {
    seq![
        (styled_text(x.code@, TextStyle::Cyan, use_color), false),
        (x.name@, false),
        (capitalized(x.account_type@), false),
        (int_decimal(x.debit_total as int), true),
        (int_decimal(x.credit_total as int), true),
    ]
}

/// The account balance (code, name, type, debit and credit totals) listing at a
/// width: the message when there are none, else the table and the count.
pub open spec fn balance_accounts_listing(xs: Seq<AccountWithBalanceRow>, use_color: bool, width: Option<u16>) -> Seq<char> {
    if xs.len() == 0 {
        "No accounts found."@
    } else {
        grid_text(
            bold_header(seq!["Code"@, "Name"@, "Type"@, "Debit Total"@, "Credit Total"@], use_color),
            xs.map_values(|x: AccountWithBalanceRow| balance_account_cells(x, use_color)),
            GridStyle::Rounded,
            width,
        ) + "\n\n"@ + count_text(xs.len() as int, "account"@, "accounts"@)
    }
}

/// Renders the account balance (code, name, type, debit and credit totals)
/// listing laid out to `width`.
pub fn render_accounts_with_balances_at(accounts: &[AccountWithBalanceRow], use_color: bool, width: Option<u16>) -> (r: String)
    ensures
        r@ == balance_accounts_listing(accounts@, use_color, width),
{
    if accounts.len() == 0 {
        return "No accounts found.".to_string();
    }
    let names = vec!["Code", "Name", "Type", "Debit Total", "Credit Total"];
    assert(names@.map_values(|t: &str| t@) =~= seq!["Code"@, "Name"@, "Type"@, "Debit Total"@, "Credit Total"@]);
    let header = bold_cells(names, use_color);
    let mut rows: Vec<Vec<(String, bool)>> = Vec::new();
    let mut i: usize = 0;
    while i < accounts.len()
        invariant
            i <= accounts@.len(),
            rows_view(rows@) == accounts@.take(i as int).map_values(|x: AccountWithBalanceRow| balance_account_cells(x, use_color)),
        decreases accounts@.len() - i,
    {
        let x = &accounts[i];
        let row = vec![
            (styled(x.code.as_str(), TextStyle::Cyan, use_color), false),
            (x.name.clone(), false),
            (capitalize_first(x.account_type.as_str()), false),
            (i128_to_string(x.debit_total as i128), true),
            (i128_to_string(x.credit_total as i128), true),
        ];
        proof {
            assert(cells_view(row@) =~= balance_account_cells(*x, use_color));
            lemma_rows_push(rows@, row);
            lemma_take_map_push(accounts@, i as int, |x: AccountWithBalanceRow| balance_account_cells(x, use_color));
        }
        rows.push(row);
        i = i + 1;
    }
    assert(accounts@.take(i as int) =~= accounts@);
    finish_listing(render_grid(&header, &rows, GridStyle::Rounded, width), accounts.len(), "account", "accounts")
}

/// Renders the account balance (code, name, type, debit and credit totals)
/// listing to the terminal's width: the message when there are none, else the
/// table followed by the count.
pub fn render_accounts_with_balances(accounts: &[AccountWithBalanceRow], use_color: bool) -> (r: String)
    ensures
        accounts@.len() == 0 ==> r@ == "No accounts found."@,
        exists|w: Option<u16>| r@ == balance_accounts_listing(accounts@, use_color, w),
{
    render_accounts_with_balances_at(accounts, use_color, terminal_width())
}

/// The cells of one row of the transaction summary (id, date, description,
/// currency) table.
pub open spec fn transaction_cells(x: TransactionRow, use_color: bool) -> Seq<GridCell> {
    seq![
        (int_decimal(x.id as int), true),
        (x.date@, false),
        (x.description@, false),
        (x.currency@, false),
    ]
}

/// The transaction summary (id, date, description, currency) listing at a
/// width: the message when there are none, else the table and the count.
pub open spec fn transactions_listing(xs: Seq<TransactionRow>, use_color: bool, width: Option<u16>) -> Seq<char> {
    if xs.len() == 0 {
        "No transactions found."@
    } else {
        grid_text(
            bold_header(seq!["ID"@, "Date"@, "Description"@, "Currency"@], use_color),
            xs.map_values(|x: TransactionRow| transaction_cells(x, use_color)),
            GridStyle::Rounded,
            width,
        ) + "\n\n"@ + count_text(xs.len() as int, "transaction"@, "transactions"@)
    }
}

/// Renders the transaction summary (id, date, description, currency) listing
/// laid out to `width`.
pub fn render_transaction_list_at(transactions: &[TransactionRow], use_color: bool, width: Option<u16>) -> (r: String)
    ensures
        r@ == transactions_listing(transactions@, use_color, width),
{
    if transactions.len() == 0 {
        return "No transactions found.".to_string();
    }
    let names = vec!["ID", "Date", "Description", "Currency"];
    assert(names@.map_values(|t: &str| t@) =~= seq!["ID"@, "Date"@, "Description"@, "Currency"@]);
    let header = bold_cells(names, use_color);
    let mut rows: Vec<Vec<(String, bool)>> = Vec::new();
    let mut i: usize = 0;
    while i < transactions.len()
        invariant
            i <= transactions@.len(),
            rows_view(rows@) == transactions@.take(i as int).map_values(|x: TransactionRow| transaction_cells(x, use_color)),
        decreases transactions@.len() - i,
    {
        let x = &transactions[i];
        let row = vec![
            (i128_to_string(x.id as i128), true),
            (x.date.clone(), false),
            (x.description.clone(), false),
            (x.currency.clone(), false),
        ];
        proof {
            assert(cells_view(row@) =~= transaction_cells(*x, use_color));
            lemma_rows_push(rows@, row);
            lemma_take_map_push(transactions@, i as int, |x: TransactionRow| transaction_cells(x, use_color));
        }
        rows.push(row);
        i = i + 1;
    }
    assert(transactions@.take(i as int) =~= transactions@);
    finish_listing(render_grid(&header, &rows, GridStyle::Rounded, width), transactions.len(), "transaction", "transactions")
}

/// Renders the transaction summary (id, date, description, currency) listing to
/// the terminal's width: the message when there are none, else the table
/// followed by the count.
pub fn render_transaction_list(transactions: &[TransactionRow], use_color: bool) -> (r: String)
    ensures
        transactions@.len() == 0 ==> r@ == "No transactions found."@,
        exists|w: Option<u16>| r@ == transactions_listing(transactions@, use_color, w),
{
    render_transaction_list_at(transactions, use_color, terminal_width())
}

/// The grand debit and credit totals of a trial balance, each a running sum
/// that saturates at the bounds of `i64`.
pub open spec fn grand_totals(bs: Seq<BalanceRow>) -> (int, int)
    decreases bs.len(),
{
    if bs.len() == 0 {
        (0, 0)
    } else {
        let (d, c) = grand_totals(bs.drop_last());
        (clamp_i64(d + bs.last().debit_total), clamp_i64(c + bs.last().credit_total))
    }
}

/// The closing line of a trial balance: balanced, or the difference
/// between the totals.
pub open spec fn trial_status_line(d: int, c: int, dp: nat, use_color: bool) -> Seq<char> {
    if d == c {
        styled_text("[ok] BALANCED"@, TextStyle::Green, use_color)
    } else {
        styled_text(
            "[!!] UNBALANCED (difference: "@ + amount_text(abs_nat(clamp_i64(d - c)) as int, dp)
                + ")"@,
            TextStyle::RedBold,
            use_color,
        )
    }
}

/// Whether the difference of a trial balance's grand totals has an
/// absolute value in `i64`.
pub open spec fn trial_difference_fits(bs: Seq<BalanceRow>) -> bool {
    clamp_i64(grand_totals(bs).0 - grand_totals(bs).1) != i64::MIN
}

/// The cells of one account row of a trial balance: code, account, and the
/// debit and credit totals.
pub open spec fn trial_cells(x: BalanceRow, dp: nat, use_color: bool) -> Seq<GridCell> {
    seq![
        (styled_text(x.code@, TextStyle::Cyan, use_color), false),
        (x.name@, false),
        (amount_text(x.debit_total as int, dp), true),
        (amount_text(x.credit_total as int, dp), true),
    ]
}

/// The closing row of a trial balance table: the bold grand totals.
pub open spec fn trial_totals_cells(d: int, c: int, dp: nat, use_color: bool) -> Seq<GridCell> {
    seq![
        (Seq::empty(), false),
        (styled_text("Totals"@, TextStyle::Bold, use_color), false),
        (styled_text(amount_text(d, dp), TextStyle::Bold, use_color), true),
        (styled_text(amount_text(c, dp), TextStyle::Bold, use_color), true),
    ]
}

/// The table of a trial balance at a width: one row per account, then the
/// grand totals.
pub open spec fn trial_table(bs: Seq<BalanceRow>, dp: nat, use_color: bool, width: Option<u16>) -> Seq<char> {
    grid_text(
        bold_header(seq!["Code"@, "Account"@, "Debit"@, "Credit"@], use_color),
        bs.map_values(|x: BalanceRow| trial_cells(x, dp, use_color)).push(
            trial_totals_cells(grand_totals(bs).0, grand_totals(bs).1, dp, use_color),
        ),
        GridStyle::Rounded,
        width,
    )
}

/// A trial balance at a width: a title, its table, and whether the grand
/// totals balance.
pub open spec fn trial_balance_text(
    bs: Seq<BalanceRow>,
    currency_code: Seq<char>,
    dp: nat,
    use_color: bool,
    width: Option<u16>,
) -> Seq<char> {
    join_lines(
        seq![
            styled_text("Trial Balance ("@ + currency_code + ")"@, TextStyle::Bold, use_color),
            Seq::empty(),
            trial_table(bs, dp, use_color, width),
            Seq::empty(),
            trial_status_line(grand_totals(bs).0, grand_totals(bs).1, dp, use_color),
        ],
    )
}

/// Renders a trial balance laid out to `width`: a title, a table of the
/// accounts with a totals row, and whether the grand totals balance (with
/// their difference when they do not).
pub fn render_trial_balance_at(
    balances: &[BalanceRow],
    currency_code: &str,
    currency_minor_units: u8,
    use_color: bool,
    width: Option<u16>,
) -> (r: String)
    requires
        currency_minor_units <= 19,
        trial_difference_fits(balances@),
    ensures
        r@ == trial_balance_text(balances@, currency_code@, currency_minor_units as nat, use_color, width),
{
    let dp = currency_minor_units;
    let mut lines: Vec<String> = Vec::new();
    let mut title = "Trial Balance (".to_string();
    title.append(currency_code);
    push_str(&mut title, ")");
    push_line(&mut lines, styled(title.as_str(), TextStyle::Bold, use_color));
    push_line(&mut lines, String::new());
    let names = vec!["Code", "Account", "Debit", "Credit"];
    assert(names@.map_values(|t: &str| t@) =~= seq!["Code"@, "Account"@, "Debit"@, "Credit"@]);
    let header = bold_cells(names, use_color);
    let mut rows: Vec<Vec<(String, bool)>> = Vec::new();
    let mut grand_debits: i64 = 0;
    let mut grand_credits: i64 = 0;
    let mut i: usize = 0;
    while i < balances.len()
        invariant
            i <= balances@.len(),
            dp <= 19,
            (grand_debits as int, grand_credits as int) == grand_totals(balances@.take(i as int)),
            rows_view(rows@) == balances@.take(i as int).map_values(
                |x: BalanceRow| trial_cells(x, dp as nat, use_color),
            ),
        decreases balances@.len() - i,
    {
        let x = &balances[i];
        grand_debits = saturating_add_i64(grand_debits, x.debit_total);
        grand_credits = saturating_add_i64(grand_credits, x.credit_total);
        let row = vec![
            (styled(x.code.as_str(), TextStyle::Cyan, use_color), false),
            (x.name.clone(), false),
            (format_amount(x.debit_total, dp), true),
            (format_amount(x.credit_total, dp), true),
        ];
        proof {
            assert(cells_view(row@) =~= trial_cells(*x, dp as nat, use_color));
            lemma_rows_push(rows@, row);
            lemma_take_map_push(balances@, i as int, |x: BalanceRow| trial_cells(x, dp as nat, use_color));
            let t = balances@.take(i + 1);
            assert(t.drop_last() =~= balances@.take(i as int));
        }
        rows.push(row);
        i = i + 1;
    }
    assert(balances@.take(i as int) =~= balances@);
    let totals = vec![
        (String::new(), false),
        (styled("Totals", TextStyle::Bold, use_color), false),
        (styled(format_amount(grand_debits, dp).as_str(), TextStyle::Bold, use_color), true),
        (styled(format_amount(grand_credits, dp).as_str(), TextStyle::Bold, use_color), true),
    ];
    proof {
        reveal_strlit("");
        assert(cells_view(totals@) =~= trial_totals_cells(
            grand_debits as int,
            grand_credits as int,
            dp as nat,
            use_color,
        ));
        lemma_rows_push(rows@, totals);
    }
    rows.push(totals);
    let text = render_grid(&header, &rows, GridStyle::Rounded, width);
    assert(text@ == trial_table(balances@, dp as nat, use_color, width));
    push_line(&mut lines, text);
    push_line(&mut lines, String::new());
    if grand_debits == grand_credits {
        push_line(&mut lines, styled("[ok] BALANCED", TextStyle::Green, use_color));
    } else {
        let diff = saturating_sub_i64(grand_debits, grand_credits);
        let magnitude: i64 = if diff < 0 {
            -diff
        } else {
            diff
        };
        let mut msg = "[!!] UNBALANCED (difference: ".to_string();
        msg.append(format_amount(magnitude, dp).as_str());
        push_str(&mut msg, ")");
        push_line(&mut lines, styled(msg.as_str(), TextStyle::RedBold, use_color));
    }
    let ghost expected = seq![
        styled_text("Trial Balance ("@ + currency_code@ + ")"@, TextStyle::Bold, use_color),
        Seq::empty(),
        trial_table(balances@, dp as nat, use_color, width),
        Seq::empty(),
        trial_status_line(grand_debits as int, grand_credits as int, dp as nat, use_color),
    ];
    assert(string_views(lines@) =~= expected);
    join_with_newlines(&lines)
}

/// Renders a trial balance to the terminal's width: a title, a table of
/// the accounts with a totals row, and whether the grand totals balance.
pub fn render_trial_balance(
    balances: &[BalanceRow],
    currency_code: &str,
    currency_minor_units: u8,
    use_color: bool,
) -> (r: String)
    requires
        currency_minor_units <= 19,
        trial_difference_fits(balances@),
    ensures
        exists|w: Option<u16>|
            r@ == trial_balance_text(balances@, currency_code@, currency_minor_units as nat, use_color, w),
{
    render_trial_balance_at(balances, currency_code, currency_minor_units, use_color, terminal_width())
}

/// The cells of one orphaned correlation: transaction id, company, date,
/// description and partner id.
pub open spec fn orphan_cells(x: OrphanedCorrelation) -> Seq<GridCell> {
    seq![
        (int_decimal(x.transaction_id as int), false),
        (x.company_slug@, false),
        (x.date@, false),
        (x.description@, false),
        (int_decimal(x.partner_id as int), false),
    ]
}

/// The orphaned correlations at a width: a plain table and their count.
pub open spec fn orphans_text(xs: Seq<OrphanedCorrelation>, width: Option<u16>) -> Seq<char> {
    grid_text(
        seq!["Txn ID"@, "Company"@, "Date"@, "Description"@, "Partner ID"@],
        xs.map_values(|x: OrphanedCorrelation| orphan_cells(x)),
        GridStyle::Plain,
        width,
    ) + "\n\n"@ + int_decimal(xs.len() as int) + " orphaned correlation(s)"@
}

/// Renders orphaned intercompany correlations as a plain table laid out to
/// `width`, followed by their count.
pub fn render_orphaned_correlations_at(orphans: &[OrphanedCorrelation], width: Option<u16>) -> (r: String)
    ensures
        r@ == orphans_text(orphans@, width),
{
    let header = vec![
        "Txn ID".to_string(),
        "Company".to_string(),
        "Date".to_string(),
        "Description".to_string(),
        "Partner ID".to_string(),
    ];
    assert(string_views(header@) =~= seq!["Txn ID"@, "Company"@, "Date"@, "Description"@, "Partner ID"@]);
    let mut rows: Vec<Vec<(String, bool)>> = Vec::new();
    let mut i: usize = 0;
    while i < orphans.len()
        invariant
            i <= orphans@.len(),
            rows_view(rows@) == orphans@.take(i as int).map_values(|x: OrphanedCorrelation| orphan_cells(x)),
        decreases orphans@.len() - i,
    {
        let x = &orphans[i];
        let row = vec![
            (i128_to_string(x.transaction_id as i128), false),
            (x.company_slug.clone(), false),
            (x.date.clone(), false),
            (x.description.clone(), false),
            (i128_to_string(x.partner_id as i128), false),
        ];
        proof {
            assert(cells_view(row@) =~= orphan_cells(*x));
            lemma_rows_push(rows@, row);
            lemma_take_map_push(orphans@, i as int, |x: OrphanedCorrelation| orphan_cells(x));
        }
        rows.push(row);
        i = i + 1;
    }
    assert(orphans@.take(i as int) =~= orphans@);
    let mut out = render_grid(&header, &rows, GridStyle::Plain, width);
    push_str(&mut out, "\n\n");
    let n = i128_to_string(orphans.len() as i128);
    out.append(n.as_str());
    push_str(&mut out, " orphaned correlation(s)");
    out
}

/// Renders orphaned intercompany correlations as a plain table laid out to
/// the terminal's width, followed by their count.
pub fn render_orphaned_correlations(orphans: &[OrphanedCorrelation], use_color: bool) -> (r: String)
    ensures
        exists|w: Option<u16>| r@ == orphans_text(orphans@, w),
{
    render_orphaned_correlations_at(orphans, terminal_width())
}

/// The cells of one tax category: the category, its debit and credit
/// totals, and their net (debits less credits, saturating).
pub open spec fn tax_cells(x: TaxSummaryRow, dp: nat, use_color: bool) -> Seq<GridCell> {
    seq![
        (styled_text(x.tax_category@, TextStyle::Cyan, use_color), false),
        (amount_text(x.debit_total as int, dp), true),
        (amount_text(x.credit_total as int, dp), true),
        (amount_text(clamp_i64(x.debit_total - x.credit_total), dp), true),
    ]
}

/// A tax summary at a width: the message when there are no categories,
/// else a title, the table and the count.
pub open spec fn tax_summary_text(
    xs: Seq<TaxSummaryRow>,
    currency_code: Seq<char>,
    dp: nat,
    use_color: bool,
    width: Option<u16>,
) -> Seq<char> {
    if xs.len() == 0 {
        "No categorised entries found."@
    } else {
        join_lines(
            seq![
                styled_text("Tax Summary ("@ + currency_code + ")"@, TextStyle::Bold, use_color),
                Seq::empty(),
                grid_text(
                    bold_header(seq!["Tax Category"@, "Debit Total"@, "Credit Total"@, "Net"@], use_color),
                    xs.map_values(|x: TaxSummaryRow| tax_cells(x, dp, use_color)),
                    GridStyle::Rounded,
                    width,
                ),
                "\n"@ + count_text(xs.len() as int, "tax category"@, "tax categories"@),
            ],
        )
    }
}

/// Renders a tax summary laid out to `width`.
pub fn render_tax_summary_at(
    rows: &[TaxSummaryRow],
    currency_code: &str,
    currency_minor_units: u8,
    use_color: bool,
    width: Option<u16>,
) -> (r: String)
    requires
        currency_minor_units <= 19,
    ensures
        r@ == tax_summary_text(rows@, currency_code@, currency_minor_units as nat, use_color, width),
{
    if rows.len() == 0 {
        return "No categorised entries found.".to_string();
    }
    let dp = currency_minor_units;
    let mut lines: Vec<String> = Vec::new();
    let mut title = "Tax Summary (".to_string();
    title.append(currency_code);
    push_str(&mut title, ")");
    push_line(&mut lines, styled(title.as_str(), TextStyle::Bold, use_color));
    push_line(&mut lines, String::new());
    let names = vec!["Tax Category", "Debit Total", "Credit Total", "Net"];
    assert(names@.map_values(|t: &str| t@) =~= seq!["Tax Category"@, "Debit Total"@, "Credit Total"@, "Net"@]);
    let header = bold_cells(names, use_color);
    let mut cells: Vec<Vec<(String, bool)>> = Vec::new();
    let mut i: usize = 0;
    while i < rows.len()
        invariant
            i <= rows@.len(),
            dp <= 19,
            rows_view(cells@) == rows@.take(i as int).map_values(
                |x: TaxSummaryRow| tax_cells(x, dp as nat, use_color),
            ),
        decreases rows@.len() - i,
    {
        let x = &rows[i];
        let net = saturating_sub_i64(x.debit_total, x.credit_total);
        let row = vec![
            (styled(x.tax_category.as_str(), TextStyle::Cyan, use_color), false),
            (format_amount(x.debit_total, dp), true),
            (format_amount(x.credit_total, dp), true),
            (format_amount(net, dp), true),
        ];
        proof {
            assert(cells_view(row@) =~= tax_cells(*x, dp as nat, use_color));
            lemma_rows_push(cells@, row);
            lemma_take_map_push(rows@, i as int, |x: TaxSummaryRow| tax_cells(x, dp as nat, use_color));
        }
        cells.push(row);
        i = i + 1;
    }
    assert(rows@.take(i as int) =~= rows@);
    let text = render_grid(&header, &cells, GridStyle::Rounded, width);
    let ghost t = text@;
    push_line(&mut lines, text);
    let mut last = "\n".to_string();
    push_count(&mut last, rows.len(), "tax category", "tax categories");
    push_line(&mut lines, last);
    proof {
        reveal_strlit("");
    }
    assert(string_views(lines@) =~= seq![
        styled_text("Tax Summary ("@ + currency_code@ + ")"@, TextStyle::Bold, use_color),
        Seq::empty(),
        t,
        "\n"@ + count_text(rows@.len() as int, "tax category"@, "tax categories"@),
    ]);
    join_with_newlines(&lines)
}

/// Renders a tax summary to the terminal's width: a title, a table of the
/// categories with their debit, credit and net totals, and their count; a
/// message when there are none.
pub fn render_tax_summary(
    rows: &[TaxSummaryRow],
    currency_code: &str,
    currency_minor_units: u8,
    use_color: bool,
) -> (r: String)
    requires
        currency_minor_units <= 19,
    ensures
        rows@.len() == 0 ==> r@ == "No categorised entries found."@,
        exists|w: Option<u16>|
            r@ == tax_summary_text(rows@, currency_code@, currency_minor_units as nat, use_color, w),
{
    render_tax_summary_at(rows, currency_code, currency_minor_units, use_color, terminal_width())
}

} // verus!
