//! Fundamental accounting types.
pub mod amount;
pub mod currency;
pub mod debit_credit;
pub mod account_type;
pub mod money;
pub mod account_code;
pub mod account;
pub mod entry;
pub mod date;
pub mod clearance;
pub mod document;
pub mod idempotency;

pub use account::Account;
pub use account_code::{AccountCode, AccountCodeError};
pub use account_type::{AccountType, AccountTypeError};
pub use amount::{Amount, AmountError};
pub use currency::{Currency, CurrencyError};
pub use date::Date;
pub use debit_credit::{DebitCreditError, DebitOrCredit};
pub use entry::{Entry, EntryError};
pub use money::{Money, MoneyError};
