//! The pure part of `bk audit log`: the CSV and table lines of the audit
//! trail.
use vstd::prelude::*;
use crate::cli::db::AuditLogRow;
use crate::cli::output::opt_text;
use crate::text::{i128_to_string, int_decimal, push_str, string_push};

verus! {

/// Whether a field needs quotes in the audit CSV: it holds a comma, a quote
/// or a newline.
pub open spec fn needs_quotes(s: Seq<char>) -> bool {
    exists|i: int| 0 <= i < s.len() && (s[i] == ',' || s[i] == '"' || s[i] == '\n')
}

/// `s` with each quote doubled.
pub open spec fn doubled_quotes(s: Seq<char>) -> Seq<char>
    decreases s.len(),
{
    if s.len() == 0 {
        s
    } else {
        doubled_quotes(s.drop_last()) + if s.last() == '"' {
            seq!['"', '"']
        } else {
            seq![s.last()]
        }
    }
}

/// A field of the audit CSV: quoted, with quotes doubled, when needed.
pub open spec fn csv_field_text(s: Seq<char>) -> Seq<char> {
    if needs_quotes(s) {
        seq!['"'] + doubled_quotes(s) + seq!['"']
    } else {
        s
    }
}

/// Minimal CSV field escaping: quotes the value when it contains a comma, a
/// quote or a newline, doubling embedded quotes.
pub fn csv_field(s: &str) -> (r: String)
    ensures
        r@ == csv_field_text(s@),
{
    let n = s.unicode_len();
    let mut needs = false;
    let mut escaped = String::new();
    let mut i: usize = 0;
    while i < n
        invariant
            n == s@.len(),
            i <= n,
            escaped@ == doubled_quotes(s@.take(i as int)),
            needs == (exists|k: int| 0 <= k < i && (s@[k] == ',' || s@[k] == '"' || s@[k] == '\n')),
        decreases n - i,
    {
        let c = s.get_char(i);
        if c == ',' || c == '"' || c == '\n' {
            needs = true;
        }
        if c == '"' {
            string_push(&mut escaped, '"');
            string_push(&mut escaped, '"');
        } else {
            string_push(&mut escaped, c);
        }
        proof {
            let t = s@.take(i + 1);
            assert(t.drop_last() =~= s@.take(i as int));
            assert(t.last() == c);
        }
        i = i + 1;
    }
    assert(s@.take(n as int) =~= s@);
    if needs {
        let mut out = String::new();
        string_push(&mut out, '"');
        out.append(escaped.as_str());
        string_push(&mut out, '"');
        assert(out@ =~= csv_field_text(s@));
        out
    } else {
        s.to_string()
    }
}

/// `s` cut to at most `max` characters, the last kept one replaced by `…`
/// when it had to be cut.
pub open spec fn truncated(s: Seq<char>, max: nat) -> Seq<char> {
    if s.len() <= max {
        s
    } else {
        s.take(if max == 0 {
            0
        } else {
            max - 1
        }) + seq!['…']
    }
}

/// Cuts `s` to at most `max` characters, ending with `…` when cut.
pub fn truncate(s: &str, max: usize) -> (r: String)
    ensures
        r@ == truncated(s@, max as nat),
{
    let n = s.unicode_len();
    if n <= max {
        return s.to_string();
    }
    let keep: usize = if max == 0 {
        0
    } else {
        max - 1
    };
    let mut out = String::new();
    let mut i: usize = 0;
    while i < keep
        invariant
            keep < n == s@.len(),
            i <= keep,
            out@ == s@.take(i as int),
        decreases keep - i,
    {
        string_push(&mut out, s.get_char(i));
        i = i + 1;
        assert(out@ =~= s@.take(i as int));
    }
    string_push(&mut out, '…');
    out
}

/// `s` followed by spaces up to `width` characters, as `{:<width}` writes
/// it.
pub open spec fn padded_right(s: Seq<char>, width: nat) -> Seq<char> {
    if s.len() >= width {
        s
    } else {
        s + Seq::new((width - s.len()) as nat, |i: int| ' ')
    }
}

/// Appends `s` padded with spaces to `width` characters.
fn push_padded(out: &mut String, s: &str, width: usize)
    ensures
        final(out)@ == old(out)@ + padded_right(s@, width as nat),
{
    out.append(s);
    let n = s.unicode_len();
    let mut k = n;
    while k < width
        invariant
            n == s@.len(),
            n <= k <= width || (n >= width && k == n),
            out@ == old(out)@ + s@ + Seq::new((k - n) as nat, |i: int| ' '),
        decreases width - k,
    {
        string_push(out, ' ');
        k = k + 1;
        assert(out@ =~= old(out)@ + s@ + Seq::new((k - n) as nat, |i: int| ' '));
    }
    assert(final(out)@ =~= old(out)@ + padded_right(s@, width as nat));
}

/// The header line of the audit CSV.
pub open spec fn audit_csv_header() -> Seq<char> {
    "id,changed_at,actor,company,entity,entity_id,action"@
}

/// The header line of the audit CSV.
pub fn audit_csv_header_line() -> (s: String)
    ensures
        s@ == audit_csv_header(),
{
    "id,changed_at,actor,company,entity,entity_id,action".to_string()
}

/// One line of the audit CSV.
pub open spec fn audit_csv_line_text(r: AuditLogRow) -> Seq<char> {
    int_decimal(r.id as int) + ","@ + csv_field_text(r.changed_at@) + ","@ + csv_field_text(r.actor@)
        + ","@ + csv_field_text(opt_text(r.company_slug)) + ","@ + csv_field_text(r.entity@) + ","@
        + csv_field_text(r.entity_id@) + ","@ + csv_field_text(r.action@)
}

/// Writes one line of the audit CSV.
pub fn audit_csv_line(r: &AuditLogRow) -> (s: String)
    ensures
        s@ == audit_csv_line_text(*r),
{
    let mut out = i128_to_string(r.id as i128);
    push_str(&mut out, ",");
    out.append(csv_field(r.changed_at.as_str()).as_str());
    push_str(&mut out, ",");
    out.append(csv_field(r.actor.as_str()).as_str());
    push_str(&mut out, ",");
    let company: &str = match &r.company_slug {
        Some(c) => c.as_str(),
        None => "",
    };
    proof {
        reveal_strlit("");
    }
    out.append(csv_field(company).as_str());
    push_str(&mut out, ",");
    out.append(csv_field(r.entity.as_str()).as_str());
    push_str(&mut out, ",");
    out.append(csv_field(r.entity_id.as_str()).as_str());
    push_str(&mut out, ",");
    out.append(csv_field(r.action.as_str()).as_str());
    assert(out@ =~= audit_csv_line_text(*r));
    out
}

/// The header line of the audit table.
pub open spec fn audit_table_header() -> Seq<char> {
    padded_right("CHANGED AT"@, 20) + "  "@ + padded_right("ACTOR"@, 14) + "  "@ + padded_right(
        "ENTITY"@,
        12,
    ) + "  "@ + padded_right("ACTION"@, 14) + "  "@ + padded_right("ID"@, 10) + "  COMPANY"@
}

/// One line of the audit table: the actor cut to 14 characters and the
/// entity id to 10, `-` for no company.
pub open spec fn audit_table_line_text(r: AuditLogRow) -> Seq<char> {
    padded_right(r.changed_at@, 20) + "  "@ + padded_right(truncated(r.actor@, 14), 14) + "  "@
        + padded_right(r.entity@, 12) + "  "@ + padded_right(r.action@, 14) + "  "@ + padded_right(
        truncated(r.entity_id@, 10),
        10,
    ) + "  "@ + match r.company_slug {
        Some(c) => c@,
        None => "-"@,
    }
}

/// Writes the header line of the audit table.
pub fn audit_table_header_line() -> (s: String)
    ensures
        s@ == audit_table_header(),
{
    let mut out = String::new();
    push_padded(&mut out, "CHANGED AT", 20);
    push_str(&mut out, "  ");
    push_padded(&mut out, "ACTOR", 14);
    push_str(&mut out, "  ");
    push_padded(&mut out, "ENTITY", 12);
    push_str(&mut out, "  ");
    push_padded(&mut out, "ACTION", 14);
    push_str(&mut out, "  ");
    push_padded(&mut out, "ID", 10);
    push_str(&mut out, "  COMPANY");
    assert(out@ =~= audit_table_header());
    out
}

/// Writes one line of the audit table.
pub fn audit_table_line(r: &AuditLogRow) -> (s: String)
    ensures
        s@ == audit_table_line_text(*r),
{
    let mut out = String::new();
    push_padded(&mut out, r.changed_at.as_str(), 20);
    push_str(&mut out, "  ");
    push_padded(&mut out, truncate(r.actor.as_str(), 14).as_str(), 14);
    push_str(&mut out, "  ");
    push_padded(&mut out, r.entity.as_str(), 12);
    push_str(&mut out, "  ");
    push_padded(&mut out, r.action.as_str(), 14);
    push_str(&mut out, "  ");
    push_padded(&mut out, truncate(r.entity_id.as_str(), 10).as_str(), 10);
    push_str(&mut out, "  ");
    match &r.company_slug {
        Some(c) => out.append(c.as_str()),
        None => push_str(&mut out, "-"),
    }
    assert(out@ =~= audit_table_line_text(*r));
    out
}

/// The non-negative row limit of an audit query.
pub fn audit_limit(limit: i64) -> (r: i64)
    ensures
        r == (if limit < 0 {
            0
        } else {
            limit
        }),
{
    if limit < 0 {
        0
    } else {
        limit
    }
}

} // verus!
