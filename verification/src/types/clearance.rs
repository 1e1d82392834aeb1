//! Clearance status of ledger entries (bank reconciliation).
use vstd::prelude::*;
use crate::text::{ascii_lower_seq, eq_ignore_ascii_case};

verus! {

/// Clearance status for a ledger entry: whether it has been verified
/// against an external statement.
#[derive(Debug, Clone, Copy, PartialEq, Eq, Structural, Default)]
#[non_exhaustive]
pub enum ClearanceStatus {
    /// The entry has not been verified (default).
    #[default]
    Uncleared,
    /// The entry matches an external statement.
    Cleared,
    /// The entry has been finalized in a reconciliation workflow.
    Reconciled,
}

/// The database name of a clearance status.
pub open spec fn clearance_name(c: ClearanceStatus) -> Seq<char> {
    match c {
        ClearanceStatus::Uncleared => "uncleared"@,
        ClearanceStatus::Cleared => "cleared"@,
        ClearanceStatus::Reconciled => "reconciled"@,
    }
}

/// The clearance status a text names, ignoring case.
pub open spec fn clearance_from_text(s: Seq<char>) -> Option<ClearanceStatus> {
    if ascii_lower_seq(s) == ascii_lower_seq("uncleared"@) {
        Some(ClearanceStatus::Uncleared)
    } else if ascii_lower_seq(s) == ascii_lower_seq("cleared"@) {
        Some(ClearanceStatus::Cleared)
    } else if ascii_lower_seq(s) == ascii_lower_seq("reconciled"@) {
        Some(ClearanceStatus::Reconciled)
    } else {
        None
    }
}

impl ClearanceStatus {
    /// Returns the string representation used in the database.
    pub fn as_str(&self) -> (s: &'static str)
        ensures
            s@ == clearance_name(*self),
    {
        match self {
            ClearanceStatus::Uncleared => "uncleared",
            ClearanceStatus::Cleared => "cleared",
            ClearanceStatus::Reconciled => "reconciled",
        }
    }

    /// The display form: the database name.
    pub fn to_string(&self) -> (s: String)
        ensures
            s@ == clearance_name(*self),
    {
        self.as_str().to_owned()
    }

    /// Parses a status name, ignoring case.
    pub fn parse(s: &str) -> (r: Result<ClearanceStatus, ParseClearanceError>)
        ensures
            clearance_from_text(s@) matches Some(c) ==> r == Ok::<ClearanceStatus, ParseClearanceError>(c),
            clearance_from_text(s@) is None ==> (r matches Err(e) && e@ == s@),
    {
        if eq_ignore_ascii_case(s, "uncleared") {
            Ok(ClearanceStatus::Uncleared)
        } else if eq_ignore_ascii_case(s, "cleared") {
            Ok(ClearanceStatus::Cleared)
        } else if eq_ignore_ascii_case(s, "reconciled") {
            Ok(ClearanceStatus::Reconciled)
        } else {
            Err(ParseClearanceError(s.to_owned()))
        }
    }
}

/// Error type when parsing a clearance status fails; holds the input.
#[derive(Debug, Clone, PartialEq, Eq)]
pub struct ParseClearanceError(String);

impl View for ParseClearanceError {
    type V = Seq<char>;

    closed spec fn view(&self) -> Seq<char> {
        self.0@
    }
}

impl ParseClearanceError {
    /// The human-readable message for this error.
    pub fn to_string(&self) -> (s: String)
        ensures
            s@ == "invalid clearance status '"@ + self@ + "'"@,
    {
        let mut s = "invalid clearance status '".to_string();
        s.append(self.0.as_str());
        s.append("'");
        s
    }
}

impl core::str::FromStr for ClearanceStatus {
    type Err = ParseClearanceError;

    fn from_str(s: &str) -> (r: Result<ClearanceStatus, ParseClearanceError>)
        ensures
            clearance_from_text(s@) matches Some(c) ==> r == Ok::<ClearanceStatus, ParseClearanceError>(c),
            clearance_from_text(s@) is None ==> (r matches Err(e) && e@ == s@),
    {
        ClearanceStatus::parse(s)
    }
}

} // verus!
