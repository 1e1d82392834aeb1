//! Transaction building, validation, and the general ledger.
pub mod transaction;
pub mod journal_entry;
pub mod ledger;

pub use journal_entry::JournalEntry;
pub use ledger::Ledger;
pub use transaction::{Transaction, TransactionError};
