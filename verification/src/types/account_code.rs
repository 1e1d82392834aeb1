//! Validated account codes for chart-of-accounts organisation.
use vstd::prelude::*;
use vstd::std_specs::cmp::PartialEqSpecImpl;

verus! {

/// Error type for [`AccountCode`] validation.
#[derive(Debug, Clone, PartialEq, Eq, Structural)]
#[non_exhaustive]
pub enum AccountCodeError {
    /// The account code string was empty.
    Empty,
    /// The account code contains an invalid character.
    InvalidCharacter {
        /// The invalid character encountered.
        char: char,
        /// Zero-based position of the invalid character.
        position: usize,
    },
}

/// The message of an account code error.
pub open spec fn account_code_error_text(e: AccountCodeError) -> Seq<char> {
    match e {
        AccountCodeError::Empty => "account code cannot be empty"@,
        AccountCodeError::InvalidCharacter { char, position } => "invalid character '"@ + seq![char]
            + "' at position "@ + crate::text::nat_digits(position as nat)
            + " (expected digits, hyphens, or dots)"@,
    }
}

impl AccountCodeError {
    /// The human-readable message for this error.
    pub fn to_string(&self) -> (s: String)
        ensures
            s@ == account_code_error_text(*self),
    {
        match self {
            AccountCodeError::Empty => "account code cannot be empty".to_string(),
            AccountCodeError::InvalidCharacter { char, position } => {
                let mut s = "invalid character '".to_string();
                crate::text::string_push(&mut s, *char);
                s.append("' at position ");
                let p = crate::text::u128_to_string(*position as u128);
                s.append(p.as_str());
                s.append(" (expected digits, hyphens, or dots)");
                assert(s@ =~= account_code_error_text(*self));
                s
            },
        }
    }
}

/// Whether `c` may appear in an account code: a digit, `-` or `.`.
pub open spec fn is_code_char(c: char) -> bool {
    ('0' <= c <= '9') || c == '-' || c == '.'
}

/// Whether `s` is a valid account code: non-empty, made of code characters.
pub open spec fn is_valid_code(s: Seq<char>) -> bool {
    s.len() > 0 && forall|i: int| 0 <= i < s.len() ==> is_code_char(#[trigger] s[i])
}

/// Whether `parent` is a hierarchical parent of `child`: `child` extends
/// `parent` with a `.` or `-` separator right after it.
pub open spec fn is_parent_code(parent: Seq<char>, child: Seq<char>) -> bool {
    &&& child.len() > parent.len()
    &&& child.subrange(0, parent.len() as int) == parent
    &&& (child[parent.len() as int] == '.' || child[parent.len() as int] == '-')
}

/// The position of the first character of `s` that may not appear in an
/// account code.
pub open spec fn first_bad_position(s: Seq<char>) -> int {
    choose|i: int| 0 <= i < s.len() && !is_code_char(s[i]) && (forall|j: int| 0 <= j < i ==> is_code_char(s[j]))
}

/// The error `AccountCode::new` gives for a text that is not a valid code.
pub open spec fn code_error(s: Seq<char>) -> AccountCodeError {
    if s.len() == 0 {
        AccountCodeError::Empty
    } else {
        AccountCodeError::InvalidCharacter {
            char: s[first_bad_position(s)],
            position: first_bad_position(s) as usize,
        }
    }
}

/// Strict lexicographic order on codes.
pub open spec fn code_lt(a: Seq<char>, b: Seq<char>) -> bool
    decreases a.len(),
{
    if a.len() == 0 {
        b.len() > 0
    } else if b.len() == 0 {
        false
    } else if a[0] != b[0] {
        a[0] < b[0]
    } else {
        code_lt(a.drop_first(), b.drop_first())
    }
}

/// No code is below itself.
pub proof fn lemma_code_lt_irreflexive(a: Seq<char>)
    ensures
        !code_lt(a, a),
    decreases a.len(),
{
    if a.len() > 0 {
        lemma_code_lt_irreflexive(a.drop_first());
    }
}

/// The order on codes is transitive.
pub proof fn lemma_code_lt_transitive(a: Seq<char>, b: Seq<char>, c: Seq<char>)
    requires
        code_lt(a, b),
        code_lt(b, c),
    ensures
        code_lt(a, c),
    decreases a.len(),
{
    if a.len() > 0 && b.len() > 0 && c.len() > 0 && a[0] == b[0] && b[0] == c[0] {
        lemma_code_lt_transitive(a.drop_first(), b.drop_first(), c.drop_first());
    }
}

/// Of two different codes, one is below the other.
pub proof fn lemma_code_lt_total(a: Seq<char>, b: Seq<char>)
    requires
        a != b,
    ensures
        code_lt(a, b) || code_lt(b, a),
    decreases a.len(),
{
    if a.len() == 0 && b.len() == 0 {
        assert(a =~= b);
    }
    if a.len() > 0 && b.len() > 0 && a[0] == b[0] {
        if a.drop_first() == b.drop_first() {
            assert(a.len() == b.len()) by {
                assert(a.drop_first().len() == b.drop_first().len());
            }
            assert(a =~= b) by {
                assert forall|i: int| 0 <= i < a.len() implies a[i] == b[i] by {
                    if i > 0 {
                        assert(a[i] == a.drop_first()[i - 1]);
                        assert(b[i] == b.drop_first()[i - 1]);
                    }
                }
            }
        }
        lemma_code_lt_total(a.drop_first(), b.drop_first());
    }
}

/// A validated account code: a non-empty string of digits, hyphens and dots
/// such as `"1000"`, `"1000.10"` or `"1-1000"`.
#[derive(Debug, PartialOrd, Ord, Hash)]
pub struct AccountCode(String);

impl View for AccountCode {
    type V = Seq<char>;

    closed spec fn view(&self) -> Seq<char> {
        self.0@
    }
}

impl AccountCode {
    #[verifier::type_invariant]
    spec fn inv(self) -> bool {
        is_valid_code(self.0@)
    }

    /// Creates a new validated account code.
    ///
    /// Fails with `Empty` for an empty string, and with `InvalidCharacter`
    /// at the first character that is not a digit, `-` or `.`.
    pub fn new(code: &str) -> (r: Result<AccountCode, AccountCodeError>)
        ensures
            code@.len() == 0 ==> r == Err::<AccountCode, AccountCodeError>(AccountCodeError::Empty),
            is_valid_code(code@) ==> (r matches Ok(c) && c@ == code@),
            code@.len() > 0 && !is_valid_code(code@) ==> exists|i: int|
                0 <= i < code@.len() && !is_code_char(#[trigger] code@[i]) && (forall|j: int|
                    0 <= j < i ==> is_code_char(code@[j])) && r == Err::<
                    AccountCode,
                    AccountCodeError,
                >(AccountCodeError::InvalidCharacter { char: code@[i], position: i as usize }),
            !is_valid_code(code@) ==> r == Err::<AccountCode, AccountCodeError>(code_error(code@)),
    {
        let n = code.unicode_len();
        if n == 0 {
            return Err(AccountCodeError::Empty);
        }
        let mut i: usize = 0;
        while i < n
            invariant
                n == code@.len(),
                i <= n,
                forall|j: int| 0 <= j < i ==> is_code_char(#[trigger] code@[j]),
            decreases n - i,
        {
            let ch = code.get_char(i);
            if !(('0' <= ch && ch <= '9') || ch == '-' || ch == '.') {
                assert(!is_code_char(code@[i as int]));
                proof {
                    let k = first_bad_position(code@);
                    assert(0 <= k < code@.len() && !is_code_char(code@[k]) && (forall|j: int|
                        0 <= j < k ==> is_code_char(code@[j])));
                    if k < i {
                        assert(is_code_char(code@[k]));
                    }
                    if k > i {
                        assert(is_code_char(code@[i as int]));
                    }
                }
                return Err(AccountCodeError::InvalidCharacter { char: ch, position: i });
            }
            i = i + 1;
        }
        Ok(AccountCode(code.to_owned()))
    }

    /// Returns the account code as a string slice.
    pub fn as_str(&self) -> (s: &str)
        ensures
            s@ == self@,
    {
        self.0.as_str()
    }

    /// The code as an owned string (its display form).
    pub fn to_string(&self) -> (s: String)
        ensures
            s@ == self@,
    {
        self.0.clone()
    }

    /// Returns `true` if this code is a hierarchical parent of `other`,
    /// that is, `other` continues this code with a `.` or `-` separator.
    pub fn is_parent_of(&self, other: &AccountCode) -> (b: bool)
        ensures
            b == is_parent_code(self@, other@),
    {
        let p = self.0.as_str();
        let c = other.0.as_str();
        let pn = p.unicode_len();
        let cn = c.unicode_len();
        if cn <= pn {
            return false;
        }
        let mut i: usize = 0;
        while i < pn
            invariant
                p@ == self@,
                c@ == other@,
                pn == p@.len(),
                cn == c@.len(),
                pn < cn,
                i <= pn,
                forall|j: int| 0 <= j < i ==> p@[j] == c@[j],
            decreases pn - i,
        {
            if p.get_char(i) != c.get_char(i) {
                assert(c@.subrange(0, pn as int)[i as int] != p@[i as int]);
                assert(c@.subrange(0, pn as int) != p@);
                return false;
            }
            i = i + 1;
        }
        assert(c@.subrange(0, pn as int) =~= p@);
        let sep = c.get_char(pn);
        sep == '.' || sep == '-'
    }

    /// Strict lexicographic comparison of two codes.
    pub fn less_than(&self, other: &AccountCode) -> (b: bool)
        ensures
            b == code_lt(self@, other@),
    {
        let a = self.0.as_str();
        let c = other.0.as_str();
        let an = a.unicode_len();
        let cn = c.unicode_len();
        let mut i: usize = 0;
        assert(a@.skip(0) =~= a@);
        assert(c@.skip(0) =~= c@);
        while i < an && i < cn
            invariant
                a@ == self@,
                c@ == other@,
                an == a@.len(),
                cn == c@.len(),
                i <= an,
                i <= cn,
                forall|j: int| 0 <= j < i ==> a@[j] == c@[j],
                code_lt(a@, c@) == code_lt(a@.skip(i as int), c@.skip(i as int)),
            decreases an - i,
        {
            let x = a.get_char(i);
            let y = c.get_char(i);
            assert(a@.skip(i as int)[0] == x && c@.skip(i as int)[0] == y);
            if x != y {
                assert(code_lt(a@.skip(i as int), c@.skip(i as int)) == (x < y));
                return x < y;
            }
            assert(a@.skip(i as int).drop_first() =~= a@.skip(i + 1));
            assert(c@.skip(i as int).drop_first() =~= c@.skip(i + 1));
            i = i + 1;
        }
        assert(code_lt(a@.skip(i as int), c@.skip(i as int)) == (i < cn));
        i < cn
    }
}

impl Clone for AccountCode {
    fn clone(&self) -> (r: AccountCode)
        ensures
            r@ == self@,
    {
        proof {
            use_type_invariant(self);
        }
        AccountCode(self.0.clone())
    }
}

impl PartialEq for AccountCode {
    fn eq(&self, other: &AccountCode) -> (r: bool) {
        self.0 == other.0
    }
}

impl PartialEqSpecImpl for AccountCode {
    open spec fn obeys_eq_spec() -> bool {
        true
    }

    open spec fn eq_spec(&self, other: &AccountCode) -> bool {
        self@ == other@
    }
}

impl Eq for AccountCode {
}

impl core::str::FromStr for AccountCode {
    type Err = AccountCodeError;

    fn from_str(s: &str) -> (r: Result<AccountCode, AccountCodeError>)
        ensures
            is_valid_code(s@) ==> (r matches Ok(c) && c@ == s@),
            !is_valid_code(s@) ==> r == Err::<AccountCode, AccountCodeError>(code_error(s@)),
    {
        AccountCode::new(s)
    }
}

impl AsRef<str> for AccountCode {
    fn as_ref(&self) -> (s: &str)
        ensures
            s@ == self@,
    {
        self.0.as_str()
    }
}

} // verus!
