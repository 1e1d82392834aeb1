//! Companies: slug validation.
use vstd::prelude::*;
use crate::cli::error::CliError;
use crate::text::string_push;

verus! {

/// Whether byte `b` is a lowercase ASCII letter or an ASCII digit.
pub open spec fn is_slug_start(b: u8) -> bool {
    (97 <= b <= 122) || (48 <= b <= 57)
}

/// Whether byte `b` may appear in a slug: a lowercase ASCII letter, an
/// ASCII digit or `-`.
pub open spec fn is_slug_byte(b: u8) -> bool {
    is_slug_start(b) || b == 45
}

/// Appends `s` to `out`.
fn push_str(out: &mut String, s: &str)
    ensures
        final(out)@ == old(out)@ + s@,
{
    out.append(s);
}

/// Validates a company slug, byte by byte: 1 to 64 bytes, lowercase
/// letters, digits and hyphens only, starting with a letter or digit. The
/// first offending byte is reported as the character of that code.
pub fn validate_slug(slug: &str) -> (r: Result<(), CliError>)
    ensures
        ({
            let b = vstd::utf8::encode_utf8(slug@);
            &&& (b.len() == 0 || b.len() > 64) ==> (r matches Err(CliError::Validation(m)) && m@
                == "company slug must be 1-64 characters"@)
            &&& (0 < b.len() <= 64 && !is_slug_start(b[0])) ==> (r matches Err(CliError::Validation(m))
                && m@ == "company slug must start with a lowercase letter or digit"@)
            &&& (0 < b.len() <= 64 && is_slug_start(b[0])) ==> (r is Ok <==> (forall|i: int|
                0 <= i < b.len() ==> is_slug_byte(#[trigger] b[i])))
            &&& (0 < b.len() <= 64 && is_slug_start(b[0]) && r is Err) ==> (r matches Err(
                CliError::Validation(m),
            ) && exists|i: int|
                0 <= i < b.len() && !is_slug_byte(#[trigger] b[i]) && (forall|j: int|
                    0 <= j < i ==> is_slug_byte(b[j])) && m@ == "company slug contains invalid character '"@
                    + seq![b[i] as char]
                    + "'; only lowercase letters, digits, and hyphens are allowed"@)
        }),
{
    let bytes = slug.as_bytes();
    let n = bytes.len();
    if n == 0 || n > 64 {
        return Err(CliError::Validation("company slug must be 1-64 characters".to_string()));
    }
    let b0 = bytes[0];
    if !((97 <= b0 && b0 <= 122) || (48 <= b0 && b0 <= 57)) {
        return Err(
            CliError::Validation("company slug must start with a lowercase letter or digit".to_string()),
        );
    }
    let mut i: usize = 0;
    while i < n
        invariant
            n == bytes@.len(),
            0 < n <= 64,
            is_slug_start(bytes@[0]),
            bytes@ == vstd::utf8::encode_utf8(slug@),
            i <= n,
            forall|j: int| 0 <= j < i ==> is_slug_byte(#[trigger] bytes@[j]),
        decreases n - i,
    {
        let b = bytes[i];
        if !((97 <= b && b <= 122) || (48 <= b && b <= 57) || b == 45) {
            let mut m = "company slug contains invalid character '".to_string();
            string_push(&mut m, b as char);
            push_str(&mut m, "'; only lowercase letters, digits, and hyphens are allowed");
            assert(!is_slug_byte(bytes@[i as int]));
            assert(m@ == "company slug contains invalid character '"@ + seq![bytes@[i as int] as char]
                + "'; only lowercase letters, digits, and hyphens are allowed"@);
            assert(exists|k: int|
                0 <= k < bytes@.len() && !is_slug_byte(#[trigger] bytes@[k]) && (forall|j: int|
                    0 <= j < k ==> is_slug_byte(bytes@[j])) && m@
                    == "company slug contains invalid character '"@ + seq![bytes@[k] as char]
                    + "'; only lowercase letters, digits, and hyphens are allowed"@);
            return Err(CliError::Validation(m));
        }
        i = i + 1;
    }
    Ok(())
}

} // verus!
