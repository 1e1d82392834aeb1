//! Deterministic idempotency keys for deduplicating transaction posts.
use vstd::prelude::*;
use vstd::arithmetic::power2::pow2;
use sha2::Digest;
use crate::text::{ascii_lower, ascii_lower_seq, string_push, char_ascii_lower, trim, trim_text};

verus! {

/// The SHA-256 digest of a byte sequence.
pub uninterp spec fn sha256(data: Seq<u8>) -> Seq<u8>;

/// SHA-256 of a byte slice (`sha2::Sha256::digest`): the 32-byte digest.
#[verifier::external_body]
pub(crate) fn sha256_digest(data: &[u8]) -> (h: Vec<u8>)
    ensures
        h@ == sha256(data@),
        h@.len() == 32,
{
    sha2::Sha256::digest(data).to_vec()
}

/// Bit `k` of `data` read most significant bit first; zero past the end.
pub open spec fn bit_at(data: Seq<u8>, k: int) -> int {
    if 0 <= k < 8 * data.len() {
        (data[k / 8] as int / pow2((7 - k % 8) as nat) as int) % 2
    } else {
        0
    }
}

/// The value of the `i`-th group of five bits of `data`.
pub open spec fn quintet(data: Seq<u8>, i: int) -> int {
    16 * bit_at(data, 5 * i) + 8 * bit_at(data, 5 * i + 1) + 4 * bit_at(data, 5 * i + 2) + 2
        * bit_at(data, 5 * i + 3) + bit_at(data, 5 * i + 4)
}

/// The RFC 4648 base32 alphabet: `A`-`Z` then `2`-`7`.
pub open spec fn base32_char(v: int) -> char {
    if v < 26 {
        (('A' as int) + v) as char
    } else {
        (('2' as int) + (v - 26)) as char
    }
}

/// RFC 4648 base32 of `data` without padding.
pub open spec fn base32_nopad(data: Seq<u8>) -> Seq<char> {
    Seq::new(((8 * data.len() + 4) / 5) as nat, |i: int| base32_char(quintet(data, i)))
}

/// Unpadded base32 encoding (`data_encoding::BASE32_NOPAD.encode`).
#[verifier::external_body]
fn base32_encode(data: &[u8]) -> (s: String)
    ensures
        s@ == base32_nopad(data@),
{
    data_encoding::BASE32_NOPAD.encode(data)
}

/// The key text derived from a reference: `txnref_` followed by the
/// lowercase base32 of the first 16 bytes of the SHA-256 of the trimmed
/// reference's UTF-8 bytes.
pub open spec fn key_text(reference: Seq<char>) -> Seq<char> {
    "txnref_"@ + ascii_lower_seq(
        base32_nopad(sha256(vstd::utf8::encode_utf8(trim_text(reference))).subrange(0, 16)),
    )
}

/// Whether `c` is a character of a key's hash part: a lowercase letter or
/// a digit from `2` to `7`.
pub open spec fn is_key_char(c: char) -> bool {
    ('a' <= c <= 'z') || ('2' <= c <= '7')
}

/// The shape of every key: `txnref_` followed by 26 characters from
/// `[a-z2-7]`, 33 in all.
pub open spec fn has_key_shape(k: Seq<char>) -> bool {
    &&& k.len() == 33
    &&& k.subrange(0, 7) == "txnref_"@
    &&& forall|i: int| 7 <= i < 33 ==> #[trigger] is_key_char(k[i])
}

/// A key made from at least 16 digest bytes has the key shape.
proof fn lemma_digest_key_shape(digest: Seq<u8>)
    requires
        digest.len() >= 16,
    ensures
        has_key_shape("txnref_"@ + ascii_lower_seq(base32_nopad(digest.subrange(0, 16)))),
{
    reveal_strlit("txnref_");
    let head = digest.subrange(0, 16);
    let enc = base32_nopad(head);
    let k = "txnref_"@ + ascii_lower_seq(enc);
    assert(enc.len() == 26);
    assert forall|i: int| 7 <= i < 33 implies #[trigger] is_key_char(k[i]) by {
        let j = i - 7;
        let q = quintet(head, j);
        assert(0 <= bit_at(head, 5 * j) <= 1);
        assert(0 <= bit_at(head, 5 * j + 1) <= 1);
        assert(0 <= bit_at(head, 5 * j + 2) <= 1);
        assert(0 <= bit_at(head, 5 * j + 3) <= 1);
        assert(0 <= bit_at(head, 5 * j + 4) <= 1);
        assert(0 <= q < 32);
        assert(k[i] == ascii_lower(enc[j]));
        assert(enc[j] == base32_char(q));
    }
    assert(k.subrange(0, 7) =~= "txnref_"@);
}

/// Errors that can occur when creating an [`IdempotencyKey`].
#[derive(Debug, Clone, PartialEq, Eq, Structural)]
#[non_exhaustive]
pub enum IdempotencyKeyError {
    /// The reference string was empty or contained only whitespace.
    Empty,
}

impl IdempotencyKeyError {
    /// The human-readable message for this error.
    pub fn to_string(&self) -> (s: String)
        ensures
            s@ == "idempotency key reference must not be empty"@,
    {
        match self {
            IdempotencyKeyError::Empty => "idempotency key reference must not be empty".to_string(),
        }
    }
}

/// A deterministic idempotency key derived from a human-readable reference.
#[derive(Debug, Clone, PartialEq, Eq, Hash)]
pub struct IdempotencyKey {
    value: String,
}

impl View for IdempotencyKey {
    type V = Seq<char>;

    closed spec fn view(&self) -> Seq<char> {
        self.value@
    }
}

impl IdempotencyKey {
    /// Creates a key from a reference string: the reference is trimmed,
    /// hashed with SHA-256, and the first 16 bytes are base32-encoded in
    /// lowercase after a `txnref_` prefix.
    ///
    /// Fails with `Empty` when the reference is empty or only white space.
    pub fn from_reference(input: &str) -> (r: Result<IdempotencyKey, IdempotencyKeyError>)
        ensures
            trim_text(input@).len() == 0 ==> r == Err::<IdempotencyKey, IdempotencyKeyError>(IdempotencyKeyError::Empty),
            trim_text(input@).len() > 0 ==> (r matches Ok(k) && k@ == key_text(input@)
                && has_key_shape(k@)),
    {
        let trimmed = trim(input);
        if trimmed.unicode_len() == 0 {
            return Err(IdempotencyKeyError::Empty);
        }
        let hash = sha256_digest(trimmed.as_bytes());
        proof {
            lemma_digest_key_shape(hash@);
        }
        Ok(IdempotencyKey::from_digest(hash.as_slice()))
    }

    /// Makes the key for a reference whose SHA-256 digest is `digest`:
    /// `txnref_` followed by the lowercase unpadded base32 of the digest's
    /// first 16 bytes.
    pub fn from_digest(digest: &[u8]) -> (k: IdempotencyKey)
        requires
            digest@.len() >= 16,
        ensures
            k@ == "txnref_"@ + ascii_lower_seq(base32_nopad(digest@.subrange(0, 16))),
            has_key_shape(k@),
    {
        proof {
            lemma_digest_key_shape(digest@);
        }
        let mut head: Vec<u8> = Vec::new();
        let mut i: usize = 0;
        while i < 16
            invariant
                i <= 16,
                digest@.len() >= 16,
                head@ == digest@.subrange(0, i as int),
            decreases 16 - i,
        {
            head.push(digest[i]);
            i = i + 1;
            assert(head@ =~= digest@.subrange(0, i as int));
        }
        let encoded = base32_encode(head.as_slice());
        let n = encoded.as_str().unicode_len();
        let mut value = "txnref_".to_string();
        let mut j: usize = 0;
        while j < n
            invariant
                n == encoded@.len(),
                j <= n,
                value@ == "txnref_"@ + ascii_lower_seq(encoded@.subrange(0, j as int)),
            decreases n - j,
        {
            string_push(&mut value, char_ascii_lower(encoded.as_str().get_char(j)));
            j = j + 1;
            assert(ascii_lower_seq(encoded@.subrange(0, j as int)) =~= ascii_lower_seq(
                encoded@.subrange(0, j - 1),
            ).push(ascii_lower(encoded@[j - 1])));
        }
        assert(encoded@.subrange(0, n as int) =~= encoded@);
        IdempotencyKey { value }
    }

    /// Returns the key as a string slice, suitable for database storage.
    pub fn as_str(&self) -> (s: &str)
        ensures
            s@ == self@,
    {
        self.value.as_str()
    }

    /// The key as an owned string (its display form).
    pub fn to_string(&self) -> (s: String)
        ensures
            s@ == self@,
    {
        self.value.clone()
    }
}

/// Keys are insensitive to surrounding white space: a reference and its
/// trimmed form give the same key text.
pub proof fn lemma_key_ignores_surrounding_space(reference: Seq<char>)
    ensures
        key_text(trim_text(reference)) == key_text(reference),
{
    crate::text::lemma_trim_idempotent(reference);
}

/// The same reference always gives the same key: references that agree
/// once trimmed give equal key texts.
pub proof fn lemma_same_reference_same_key(a: Seq<char>, b: Seq<char>)
    requires
        trim_text(a) == trim_text(b),
    ensures
        key_text(a) == key_text(b),
{
}

} // verus!
