//! Attachments: stored records and content hashes.
use vstd::prelude::*;
use crate::text::string_push;
use crate::types::idempotency::{sha256, sha256_digest};

verus! {

/// A row from the `attachments` table.
#[derive(Debug, Clone)]
pub struct AttachmentRow {
    /// The attachment id.
    pub id: i64,
    /// The owning transaction's id.
    pub transaction_id: i64,
    /// The entry the document belongs to, if any.
    pub entry_id: Option<i64>,
    /// The owning company's slug.
    pub company_slug: String,
    /// Where the document is stored.
    pub uri: String,
    /// The document type name.
    pub document_type: String,
    /// The content hash, if known.
    pub hash: Option<String>,
    /// The original file name, if known.
    pub original_filename: Option<String>,
    /// When the document was attached.
    pub attached_at: String,
}

/// Parameters for inserting a new attachment record.
pub struct StoreAttachmentParams<'a> {
    /// The owning transaction's id.
    pub transaction_id: i64,
    /// The entry the document belongs to, if any.
    pub entry_id: Option<i64>,
    /// The owning company's slug.
    pub company_slug: &'a str,
    /// Where the document is stored.
    pub uri: &'a str,
    /// The document type name.
    pub document_type: &'a str,
    /// The content hash, if known.
    pub hash: Option<&'a str>,
    /// The original file name, if known.
    pub original_filename: Option<&'a str>,
}

/// The lowercase hexadecimal digit of a value below 16.
pub open spec fn hex_digit(v: int) -> char {
    if v < 10 {
        (('0' as int) + v) as char
    } else {
        (('a' as int) + (v - 10)) as char
    }
}

/// Two lowercase hexadecimal digits per byte.
pub open spec fn hex_text(bytes: Seq<u8>) -> Seq<char>
    decreases bytes.len(),
{
    if bytes.len() == 0 {
        Seq::empty()
    } else {
        hex_text(bytes.drop_last()) + seq![
            hex_digit(bytes.last() as int / 16),
            hex_digit(bytes.last() as int % 16),
        ]
    }
}

fn hex_char(v: u8) -> (c: char)
    requires
        v < 16,
    ensures
        c == hex_digit(v as int),
{
    let r = match v {
        0 => '0',
        1 => '1',
        2 => '2',
        3 => '3',
        4 => '4',
        5 => '5',
        6 => '6',
        7 => '7',
        8 => '8',
        9 => '9',
        10 => 'a',
        11 => 'b',
        12 => 'c',
        13 => 'd',
        14 => 'e',
        _ => 'f',
    };
    r
}

/// Encodes bytes as a lowercase hex string.
pub fn hex_encode(bytes: &[u8]) -> (s: String)
    ensures
        s@ == hex_text(bytes@),
{
    let mut s = String::new();
    let mut i: usize = 0;
    while i < bytes.len()
        invariant
            i <= bytes@.len(),
            s@ == hex_text(bytes@.subrange(0, i as int)),
        decreases bytes@.len() - i,
    {
        let b = bytes[i];
        assert(bytes@.subrange(0, i + 1).drop_last() =~= bytes@.subrange(0, i as int));
        string_push(&mut s, hex_char(b / 16));
        string_push(&mut s, hex_char(b % 16));
        i = i + 1;
        assert(s@ =~= hex_text(bytes@.subrange(0, i as int)));
    }
    assert(bytes@.subrange(0, i as int) =~= bytes@);
    s
}

/// Hex text has two digits per byte.
pub proof fn lemma_hex_text_len(bytes: Seq<u8>)
    ensures
        hex_text(bytes).len() == 2 * bytes.len(),
    decreases bytes.len(),
{
    if bytes.len() > 0 {
        lemma_hex_text_len(bytes.drop_last());
    }
}

/// The content address of a file's bytes: the lowercase hex of their
/// SHA-256 digest, 64 characters.
pub fn content_digest_hex(bytes: &[u8]) -> (s: String)
    ensures
        s@ == hex_text(sha256(bytes@)),
        s@.len() == 64,
{
    let digest = sha256_digest(bytes);
    proof {
        lemma_hex_text_len(digest@);
    }
    hex_encode(digest.as_slice())
}

} // verus!
