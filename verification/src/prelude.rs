//! Convenience re-exports for common usage.
pub use crate::error::BeanError;
pub use crate::journal::{JournalEntry, Ledger, Transaction, TransactionError};
pub use crate::reporting::{AccountBalance, TrialBalance};
pub use crate::types::{
    Account, AccountCode, AccountCodeError, AccountType, AccountTypeError, Amount, AmountError,
    Currency, CurrencyError, Date, DebitCreditError, DebitOrCredit, Entry, EntryError, Money,
    MoneyError,
};
