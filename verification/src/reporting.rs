//! Accounting reports: trial balances and account balance summaries.
pub mod account_balance;
pub mod trial_balance;

pub use account_balance::AccountBalance;
pub use trial_balance::TrialBalance;
