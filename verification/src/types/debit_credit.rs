//! The direction of a ledger entry.
use vstd::prelude::*;
use vstd::std_specs::ops::NotSpecImpl;
use core::ops::Not;
use crate::text::str_eq;

verus! {

/// Error type for parsing [`DebitOrCredit`] from a string.
#[derive(Debug, Clone, PartialEq, Eq)]
#[non_exhaustive]
pub enum DebitCreditError {
    /// The provided string does not match "Debit" or "Credit".
    InvalidValue { value: String },
}

/// The message of a debit/credit parse error.
pub open spec fn debit_credit_error_text(e: DebitCreditError) -> Seq<char> {
    match e {
        DebitCreditError::InvalidValue { value } => "invalid debit/credit value: \""@ + value@
            + "\" (expected \"Debit\" or \"Credit\")"@,
    }
}

impl DebitCreditError {
    /// The human-readable message for this error.
    pub fn to_string(&self) -> (s: String)
        ensures
            s@ == debit_credit_error_text(*self),
    {
        match self {
            DebitCreditError::InvalidValue { value } => {
                let mut s = "invalid debit/credit value: \"".to_string();
                s.append(value.as_str());
                s.append("\" (expected \"Debit\" or \"Credit\")");
                s
            },
        }
    }
}

/// The direction of a ledger entry.
#[derive(Debug, Clone, Copy, PartialEq, Eq, Structural, Hash)]
#[non_exhaustive]
pub enum DebitOrCredit {
    /// A debit entry.
    Debit,
    /// A credit entry.
    Credit,
}

/// The direction opposite to `d`.
pub open spec fn opposite_of(d: DebitOrCredit) -> DebitOrCredit {
    match d {
        DebitOrCredit::Debit => DebitOrCredit::Credit,
        DebitOrCredit::Credit => DebitOrCredit::Debit,
    }
}

/// The direction a text names, if any.
pub open spec fn direction_from_text(s: Seq<char>) -> Option<DebitOrCredit> {
    if s == "Debit"@ || s == "debit"@ || s == "DR"@ || s == "Dr"@ {
        Some(DebitOrCredit::Debit)
    } else if s == "Credit"@ || s == "credit"@ || s == "CR"@ || s == "Cr"@ {
        Some(DebitOrCredit::Credit)
    } else {
        None
    }
}

impl DebitOrCredit {
    /// Returns the opposite direction.
    pub fn opposite(self) -> (r: DebitOrCredit)
        ensures
            r == opposite_of(self),
    {
        match self {
            DebitOrCredit::Debit => DebitOrCredit::Credit,
            DebitOrCredit::Credit => DebitOrCredit::Debit,
        }
    }

    /// Returns `true` if this is a debit.
    pub fn is_debit(self) -> (b: bool)
        ensures
            b == (self == DebitOrCredit::Debit),
    {
        matches!(self, DebitOrCredit::Debit)
    }

    /// Returns `true` if this is a credit.
    pub fn is_credit(self) -> (b: bool)
        ensures
            b == (self == DebitOrCredit::Credit),
    {
        matches!(self, DebitOrCredit::Credit)
    }

    /// Returns `1` for debit, `-1` for credit.
    pub fn sign(self) -> (s: i8)
        ensures
            s == (if self == DebitOrCredit::Debit {
                1i8
            } else {
                -1i8
            }),
    {
        match self {
            DebitOrCredit::Debit => 1,
            DebitOrCredit::Credit => -1,
        }
    }

    /// The display name, `"Debit"` or `"Credit"`.
    pub fn to_string(&self) -> (s: String)
        ensures
            s@ == (if *self == DebitOrCredit::Debit {
                "Debit"@
            } else {
                "Credit"@
            }),
    {
        match self {
            DebitOrCredit::Debit => "Debit".to_string(),
            DebitOrCredit::Credit => "Credit".to_string(),
        }
    }

    /// Parses `"Debit"`, `"debit"`, `"DR"`, `"Dr"` and the credit
    /// counterparts.
    pub fn parse(s: &str) -> (r: Result<DebitOrCredit, DebitCreditError>)
        ensures
            direction_from_text(s@) matches Some(d) ==> r == Ok::<DebitOrCredit, DebitCreditError>(
                d,
            ),
            direction_from_text(s@) is None ==> (r matches Err(DebitCreditError::InvalidValue { value })
                && value@ == s@),
    {
        if str_eq(s, "Debit") || str_eq(s, "debit") || str_eq(s, "DR") || str_eq(s, "Dr") {
            Ok(DebitOrCredit::Debit)
        } else if str_eq(s, "Credit") || str_eq(s, "credit") || str_eq(s, "CR") || str_eq(s, "Cr") {
            Ok(DebitOrCredit::Credit)
        } else {
            Err(DebitCreditError::InvalidValue { value: s.to_owned() })
        }
    }
}

impl core::str::FromStr for DebitOrCredit {
    type Err = DebitCreditError;

    fn from_str(s: &str) -> (r: Result<DebitOrCredit, DebitCreditError>)
        ensures
            direction_from_text(s@) matches Some(d) ==> r == Ok::<DebitOrCredit, DebitCreditError>(
                d,
            ),
            direction_from_text(s@) is None ==> (r matches Err(DebitCreditError::InvalidValue { value })
                && value@ == s@),
    {
        DebitOrCredit::parse(s)
    }
}

impl Not for DebitOrCredit {
    type Output = DebitOrCredit;

    fn not(self) -> (r: DebitOrCredit)
        ensures
            r == opposite_of(self),
    {
        self.opposite()
    }
}

impl NotSpecImpl for DebitOrCredit {
    open spec fn obeys_not_spec() -> bool {
        true
    }

    open spec fn not_req(self) -> bool {
        true
    }

    open spec fn not_spec(self) -> DebitOrCredit {
        opposite_of(self)
    }
}

} // verus!
