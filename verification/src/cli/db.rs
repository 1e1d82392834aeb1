//! Records exchanged with the database, and the pure steps of its
//! operations: query building, metadata merging and validation.
use vstd::prelude::*;

pub mod accounts;
pub mod attachments;
pub mod audit;
pub mod budgets;
pub mod companies;
pub mod transactions;
pub mod reports;

pub use accounts::{row_to_account, ListAccountParams};
pub use attachments::{AttachmentRow, StoreAttachmentParams};
pub use audit::{Actor, AuditLogRow, EntryStatus, ListAuditParams};
pub use transactions::{
    ConflictStrategy, ListTransactionParams, OrphanedCorrelation, PostEntryParams, PostResult,
    PostTransactionParams, SqlParam,
};

verus! {

/// A row from the `companies` table.
#[derive(Debug, Clone)]
pub struct CompanyRow {
    /// The company slug.
    pub slug: String,
    /// The display name.
    pub name: String,
    /// An optional description.
    pub description: Option<String>,
    /// When the company was created.
    pub created_at: String,
}

/// A row from the `accounts` table.
#[derive(Debug, Clone)]
pub struct AccountRow {
    /// The owning company's slug.
    pub company_slug: String,
    /// The account code.
    pub code: String,
    /// The account name.
    pub name: String,
    /// The lowercase account type, e.g. `asset`.
    pub account_type: String,
    /// When the account was created.
    pub created_at: String,
    /// The default tax category of entries posted to the account.
    pub default_tax_category: Option<String>,
}

/// A row from the `transactions` table.
#[derive(Debug, Clone)]
pub struct TransactionRow {
    /// The transaction id.
    pub id: i64,
    /// The owning company's slug.
    pub company_slug: String,
    /// The description.
    pub description: String,
    /// Optional metadata.
    pub metadata: Option<String>,
    /// The currency code.
    pub currency: String,
    /// The transaction date, `YYYY-MM-DD`.
    pub date: String,
    /// When the transaction was posted.
    pub posted_at: String,
    /// The idempotency reference, if any.
    pub reference: Option<String>,
}

/// A row from the `entries` table.
#[derive(Debug, Clone)]
pub struct EntryRow {
    /// The entry id.
    pub id: i64,
    /// The owning transaction's id.
    pub transaction_id: i64,
    /// The account code.
    pub account_code: String,
    /// The owning company's slug.
    pub company_slug: String,
    /// `debit` or `credit`.
    pub direction: String,
    /// The amount in minor units.
    pub amount: i64,
    /// An optional memo.
    pub memo: Option<String>,
    /// An optional tax category.
    pub tax_category: Option<String>,
}

/// Aggregated totals per tax category, for the tax summary report.
#[derive(Debug, Clone)]
pub struct TaxSummaryRow {
    /// The tax category.
    pub tax_category: String,
    /// The total of debit entries in minor units.
    pub debit_total: i64,
    /// The total of credit entries in minor units.
    pub credit_total: i64,
}

/// Aggregated balance data for an account, for trial balance and balance
/// reports.
#[derive(Debug, Clone)]
pub struct BalanceRow {
    /// The account code.
    pub code: String,
    /// The account name.
    pub name: String,
    /// The lowercase account type.
    pub account_type: String,
    /// The total of debit entries in minor units.
    pub debit_total: i64,
    /// The total of credit entries in minor units.
    pub credit_total: i64,
}

/// An account with its aggregated debit and credit totals.
#[derive(Debug, Clone)]
pub struct AccountWithBalanceRow {
    /// The account code.
    pub code: String,
    /// The account name.
    pub name: String,
    /// The lowercase account type.
    pub account_type: String,
    /// The default tax category of entries posted to the account.
    pub default_tax_category: Option<String>,
    /// The total of debit entries in minor units.
    pub debit_total: i64,
    /// The total of credit entries in minor units.
    pub credit_total: i64,
}

} // verus!
