//! The command line's error type, with semantic exit codes.
use vstd::prelude::*;
use crate::error::BeanError;
use crate::journal::transaction::TransactionError;
use crate::types::entry::EntryError;

verus! {

#[verifier::external_type_specification]
#[verifier::external_body]
pub struct ExSqliteError(rusqlite::Error);

#[verifier::external_type_specification]
#[verifier::external_body]
pub struct ExIoError(std::io::Error);

/// A command-line error; each kind maps to a process exit code.
#[derive(Debug)]
pub enum CliError {
    /// Invalid arguments or usage. Exit code 2.
    Usage(String),
    /// Validation error (unbalanced transaction, invalid account). Exit code 3.
    Validation(String),
    /// Database error (I/O, corruption). Exit code 4.
    Database(String),
    /// Not found (account, transaction or company does not exist). Exit code 5.
    NotFound(String),
    /// General error. Exit code 1.
    General(String),
    /// Library error. Exit code 3.
    Bean(BeanError),
    /// SQLite error. Exit code 4.
    Sqlite(rusqlite::Error),
    /// I/O error. Exit code 1.
    Io(std::io::Error),
}

/// The process exit code of each error kind.
pub open spec fn exit_code_of(e: CliError) -> u8 {
    match e {
        CliError::Usage(_) => 2,
        CliError::Validation(_) | CliError::Bean(_) => 3,
        CliError::Database(_) | CliError::Sqlite(_) => 4,
        CliError::NotFound(_) => 5,
        CliError::General(_) | CliError::Io(_) => 1,
    }
}

/// The message of a SQLite error (its `Display` form in `rusqlite`).
#[verifier::external_body]
fn sqlite_error_text(e: &rusqlite::Error) -> String {
    e.to_string()
}

/// The message of an I/O error (its `Display` form in `std::io`).
#[verifier::external_body]
fn io_error_text(e: &std::io::Error) -> String {
    e.to_string()
}

/// Whether `s` is the message of `e`: the text of a message-carrying
/// error, the wrapped library error's message, or a SQLite or I/O error's
/// message after its prefix.
pub open spec fn is_error_text(e: CliError, s: Seq<char>) -> bool {
    match e {
        CliError::Usage(m) | CliError::Validation(m) | CliError::Database(m)
        | CliError::NotFound(m) | CliError::General(m) => s == m@,
        CliError::Sqlite(_) => exists|t: Seq<char>| s == "database error: "@ + t,
        CliError::Io(_) => exists|t: Seq<char>| s == "I/O error: "@ + t,
        CliError::Bean(b) => s == crate::error::bean_error_text(b),
    }
}

/// The named code of an error, as JSON error envelopes report it; library
/// errors count as validation errors and SQLite errors as database errors,
/// as their exit codes do.
pub open spec fn error_code_of(e: CliError) -> Seq<char> {
    match e {
        CliError::Usage(_) => "USAGE"@,
        CliError::Validation(_) | CliError::Bean(_) => "VALIDATION"@,
        CliError::Database(_) | CliError::Sqlite(_) => "DATABASE"@,
        CliError::NotFound(_) => "NOT_FOUND"@,
        CliError::General(_) => "GENERAL"@,
        CliError::Io(_) => "IO"@,
    }
}

impl CliError {
    /// The named code of this error, e.g. `NOT_FOUND`.
    pub fn error_code(&self) -> (s: &'static str)
        ensures
            s@ == error_code_of(*self),
    {
        match self {
            CliError::Usage(_) => "USAGE",
            CliError::Validation(_) | CliError::Bean(_) => "VALIDATION",
            CliError::Database(_) | CliError::Sqlite(_) => "DATABASE",
            CliError::NotFound(_) => "NOT_FOUND",
            CliError::General(_) => "GENERAL",
            CliError::Io(_) => "IO",
        }
    }
}

impl CliError {
    /// Returns the process exit code for this error.
    pub fn exit_code(&self) -> (c: u8)
        ensures
            c == exit_code_of(*self),
    {
        match self {
            CliError::Usage(_) => 2,
            CliError::Validation(_) | CliError::Bean(_) => 3,
            CliError::Database(_) | CliError::Sqlite(_) => 4,
            CliError::NotFound(_) => 5,
            CliError::General(_) | CliError::Io(_) => 1,
        }
    }

    /// The human-readable message: the text of a message-carrying error,
    /// the wrapped library error's message, or the SQLite or I/O error's
    /// message after a `database error: ` or `I/O error: ` prefix.
    pub fn to_string(&self) -> (s: String)
        ensures
            is_error_text(*self, s@),
    {
        match self {
            CliError::Usage(m) | CliError::Validation(m) | CliError::Database(m)
            | CliError::NotFound(m) | CliError::General(m) => m.clone(),
            CliError::Bean(e) => e.to_string(),
            CliError::Sqlite(e) => {
                let mut s = "database error: ".to_string();
                let t = sqlite_error_text(e);
                s.append(t.as_str());
                s
            },
            CliError::Io(e) => {
                let mut s = "I/O error: ".to_string();
                let t = io_error_text(e);
                s.append(t.as_str());
                s
            },
        }
    }
}

impl From<rusqlite::Error> for CliError {
    fn from(err: rusqlite::Error) -> (e: CliError)
        ensures
            e == CliError::Sqlite(err),
    {
        CliError::Sqlite(err)
    }
}

impl vstd::std_specs::convert::FromSpecImpl<rusqlite::Error> for CliError {
    open spec fn obeys_from_spec() -> bool {
        true
    }

    open spec fn from_spec(v: rusqlite::Error) -> CliError {
        CliError::Sqlite(v)
    }
}

impl From<BeanError> for CliError {
    fn from(err: BeanError) -> (e: CliError)
        ensures
            e == CliError::Bean(err),
    {
        CliError::Bean(err)
    }
}

impl vstd::std_specs::convert::FromSpecImpl<BeanError> for CliError {
    open spec fn obeys_from_spec() -> bool {
        true
    }

    open spec fn from_spec(v: BeanError) -> CliError {
        CliError::Bean(v)
    }
}

impl From<std::io::Error> for CliError {
    fn from(err: std::io::Error) -> (e: CliError)
        ensures
            e == CliError::Io(err),
    {
        CliError::Io(err)
    }
}

impl vstd::std_specs::convert::FromSpecImpl<std::io::Error> for CliError {
    open spec fn obeys_from_spec() -> bool {
        true
    }

    open spec fn from_spec(v: std::io::Error) -> CliError {
        CliError::Io(v)
    }
}

impl From<EntryError> for CliError {
    fn from(err: EntryError) -> (e: CliError)
        ensures
            e == CliError::Bean(BeanError::Entry(err)),
    {
        CliError::Bean(BeanError::Entry(err))
    }
}

impl vstd::std_specs::convert::FromSpecImpl<EntryError> for CliError {
    open spec fn obeys_from_spec() -> bool {
        true
    }

    open spec fn from_spec(v: EntryError) -> CliError {
        CliError::Bean(BeanError::Entry(v))
    }
}

impl From<TransactionError> for CliError {
    fn from(err: TransactionError) -> (e: CliError)
        ensures
            e == CliError::Bean(BeanError::Transaction(err)),
    {
        CliError::Bean(BeanError::Transaction(err))
    }
}

impl vstd::std_specs::convert::FromSpecImpl<TransactionError> for CliError {
    open spec fn obeys_from_spec() -> bool {
        true
    }

    open spec fn from_spec(v: TransactionError) -> CliError {
        CliError::Bean(BeanError::Transaction(v))
    }
}

} // verus!
