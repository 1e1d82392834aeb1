//! The `bk` command line: its arguments, errors, command helpers, database
//! records and output rendering.
use vstd::prelude::*;
use std::path::PathBuf;
use crate::types::account_type::AccountType;
use self::error::CliError;

pub mod error;
pub mod commands;
pub mod db;
pub mod output;
pub mod passphrase;

verus! {

#[verifier::external_type_specification]
#[verifier::external_body]
pub struct ExPathBuf(PathBuf);

/// Double-entry accounting on the command line.
#[derive(Debug)]
pub struct Cli {
    /// Database file path.
    pub db: PathBuf,
    /// Company slug.
    pub company: Option<String>,
    /// Output format options.
    pub output: FormatOptions,
    /// Verbosity and display options.
    pub verbosity: VerbosityOptions,
    /// Passphrase options.
    pub passphrase: PassphraseOptions,
    /// The command to run.
    pub command: Command,
}

/// Output format options.
#[derive(Debug)]
pub struct FormatOptions {
    /// Output format.
    pub format: Option<OutputFormat>,
    /// Shorthand for `--format json`.
    pub json: bool,
}

/// Verbosity and display options.
#[derive(Debug)]
pub struct VerbosityOptions {
    /// Verbose output.
    pub verbose: bool,
    /// Suppress non-error output.
    pub quiet: bool,
    /// Disable colored output.
    pub no_color: bool,
}

/// Passphrase resolution options.
#[derive(Debug)]
pub struct PassphraseOptions {
    /// Read the passphrase from a file descriptor (Unix only).
    pub passphrase_fd: Option<i32>,
    /// Read the passphrase from a file.
    pub passphrase_file: Option<PathBuf>,
}

impl Cli {
    /// Returns whether JSON output mode is active: `--json`, or
    /// `--format json`.
    pub fn is_json(&self) -> (b: bool)
        ensures
            b == (self.output.json || self.output.format == Some(OutputFormat::Json)),
    {
        self.output.json || match self.output.format {
            Some(OutputFormat::Json) => true,
            _ => false,
        }
    }
}

/// Top-level commands.
#[derive(Debug)]
pub enum Command {
    /// Create a new accounting database.
    Init {
        /// Encrypt the database with a passphrase.
        encrypt: bool,
        /// Database file path (overrides `--db`).
        path: Option<PathBuf>,
        /// Overwrite an existing database.
        force: bool,
        /// Populate the database with sample companies, accounts and transactions.
        demo: bool,
    },
    /// Check ledger integrity.
    Verify,
    /// Export all data.
    Export {
        /// Output format for export.
        format: Option<ExportFormat>,
        /// Output file path (default: stdout).
        output: Option<PathBuf>,
    },
    /// Manage companies.
    Company(CompanyCommand),
    /// Manage the chart of accounts.
    Account(AccountArgs),
    /// Record and query transactions.
    Txn(TxnArgs),
    /// Generate financial reports.
    Report(ReportArgs),
}

/// Arguments for account commands.
#[derive(Debug)]
pub struct AccountArgs {
    /// The account subcommand.
    pub command: AccountCommand,
    /// Company slug.
    pub company: Option<String>,
}

/// Arguments for transaction commands.
#[derive(Debug)]
pub struct TxnArgs {
    /// The transaction subcommand.
    pub command: Box<TxnCommand>,
    /// Company slug.
    pub company: Option<String>,
}

/// Arguments for report commands.
#[derive(Debug)]
pub struct ReportArgs {
    /// The report subcommand.
    pub command: ReportCommand,
    /// Company slug.
    pub company: Option<String>,
}

/// Company subcommands.
#[derive(Debug)]
pub enum CompanyCommand {
    /// Create a new company.
    Create {
        /// Company slug (lowercase alphanumeric and hyphens).
        slug: String,
        /// Company display name.
        name: String,
        /// Optional company description.
        description: Option<String>,
    },
    /// List all companies.
    List,
    /// Show company details.
    Show {
        /// Company slug.
        slug: String,
    },
    /// Delete a company.
    Delete {
        /// Company slug.
        slug: String,
        /// Skip the confirmation prompt.
        force: bool,
    },
}

/// Account subcommands.
#[derive(Debug)]
pub enum AccountCommand {
    /// Create a new account.
    Create {
        /// Account code (digits, hyphens, dots).
        code: String,
        /// Account display name.
        name: String,
        /// Account type.
        account_type: AccountTypeArg,
        /// Default tax category for entries posted to this account.
        default_tax_category: Option<String>,
    },
    /// List accounts.
    List {
        /// Filter by account type.
        account_type: Option<AccountTypeArg>,
        /// Search by account name (substring, case-insensitive).
        name: Option<String>,
        /// Include debit/credit balance totals for each account.
        with_balances: bool,
        /// Start date for balance calculation (`YYYY-MM-DD`).
        from: Option<String>,
        /// End date for balance calculation (`YYYY-MM-DD`).
        to: Option<String>,
    },
    /// Show account details.
    Show {
        /// Account code.
        code: String,
    },
    /// Delete an account.
    Delete {
        /// Account code.
        code: String,
        /// Skip the confirmation prompt.
        force: bool,
    },
}

/// Transaction subcommands.
#[derive(Debug)]
pub enum TxnCommand {
    /// Record a new balanced journal entry.
    Post {
        /// Transaction description.
        description: String,
        /// Debit entries as `account_code:amount` (repeatable).
        debit: Vec<String>,
        /// Credit entries as `account_code:amount` (repeatable).
        credit: Vec<String>,
        /// Reference number or memo.
        metadata: Option<String>,
        /// Currency code.
        currency: String,
        /// Transaction date (`YYYY-MM-DD`); today when absent.
        date: Option<String>,
        /// Correlate with an existing transaction in another company.
        correlate: Option<i64>,
        /// Idempotency key: duplicate posts with the same reference are rejected per company.
        reference: Option<String>,
        /// Conflict resolution strategy for duplicate references.
        on_conflict: OnConflictArg,
        /// Tax category for specific entries, as `account_code=category` (repeatable).
        tax: Vec<String>,
    },
    /// List and search transactions.
    List {
        /// Filter by account code.
        account: Option<String>,
        /// Start date (inclusive).
        from: Option<String>,
        /// End date (inclusive).
        to: Option<String>,
        /// Maximum number of transactions to return.
        limit: i64,
        /// Number of transactions to skip.
        offset: i64,
        /// Search by description (substring, case-insensitive).
        description: Option<String>,
        /// Minimum entry amount (exclusive, in major units).
        amount_gt: Option<String>,
        /// Maximum entry amount (exclusive, in major units).
        amount_lt: Option<String>,
        /// Exact entry amount (in major units).
        amount_eq: Option<String>,
        /// Filter by currency code.
        currency: Option<String>,
        /// Filter by idempotency reference key.
        reference: Option<String>,
        /// Search in the metadata field (substring, case-insensitive).
        metadata: Option<String>,
        /// Filter by tax category on entries.
        tax_category: Option<String>,
        /// Filter entries by direction.
        direction: Option<DirectionArg>,
        /// Return only the count of matching transactions.
        count: bool,
    },
    /// Show transaction details.
    Show {
        /// Transaction ID.
        id: i64,
    },
    /// Import transactions from a file or stdin.
    Import {
        /// Input file path; `-` for stdin.
        file: Option<String>,
        /// Input format; detected from the file extension when absent.
        format: Option<ImportFormat>,
        /// Validate without persisting.
        dry_run: bool,
        /// Bank/asset account code (required for OFX import).
        account: Option<String>,
        /// Suspense/clearing contra account code (required for OFX import).
        suspense: Option<String>,
        /// Conflict resolution strategy for duplicate references.
        on_conflict: OnConflictArg,
    },
    /// Attach a document to a transaction.
    Attach {
        /// Transaction ID.
        transaction_id: i64,
        /// Path to the file to attach.
        file_path: String,
        /// Document type (receipt, invoice, statement, contract, other).
        document_type: String,
        /// Optional entry ID for entry-level attachments.
        entry: Option<i64>,
    },
    /// Find orphaned intercompany correlations.
    Reconcile,
    /// Update the clearance status of an entry for bank reconciliation.
    Clear {
        /// Transaction ID.
        transaction_id: i64,
        /// Entry ID to update.
        entry: i64,
        /// Status to apply.
        status: ClearanceArg,
    },
}

/// Report subcommands.
#[derive(Debug)]
pub enum ReportCommand {
    /// Generate a trial balance.
    TrialBalance {
        /// Start date (inclusive).
        from: Option<String>,
        /// End date (inclusive).
        to: Option<String>,
        /// Filter by account type.
        account_type: Option<AccountTypeArg>,
    },
    /// Show the balance of a single account.
    Balance {
        /// Account code.
        account: String,
        /// Start date (inclusive).
        from: Option<String>,
        /// End date (inclusive).
        to: Option<String>,
    },
    /// Generate an income statement.
    IncomeStatement {
        /// Start date (inclusive).
        from: Option<String>,
        /// End date (inclusive).
        to: Option<String>,
    },
    /// Generate a balance sheet.
    BalanceSheet {
        /// End date (inclusive).
        to: Option<String>,
    },
    /// Summarise entries grouped by tax category.
    TaxSummary {
        /// Start date (inclusive).
        from: Option<String>,
        /// End date (inclusive).
        to: Option<String>,
    },
}

/// Output format for general commands.
#[derive(Debug, Clone, Copy, PartialEq, Eq, Structural)]
pub enum OutputFormat {
    /// Human-readable table.
    Table,
    /// Machine-readable JSON.
    Json,
    /// RFC 4180 CSV.
    Csv,
}

/// Export-specific output format (no table option).
#[derive(Debug, Clone, Copy, PartialEq, Eq, Structural)]
pub enum ExportFormat {
    /// JSON export.
    Json,
    /// CSV export.
    Csv,
}

/// Import-specific input format.
#[derive(Debug, Clone, Copy, PartialEq, Eq, Structural)]
pub enum ImportFormat {
    /// CSV input.
    Csv,
    /// JSON input.
    Json,
    /// OFX / QFX bank statement.
    Ofx,
}

/// Entry direction argument.
#[derive(Debug, Clone, Copy, PartialEq, Eq, Structural)]
pub enum DirectionArg {
    /// Debit entries.
    Debit,
    /// Credit entries.
    Credit,
}

impl DirectionArg {
    /// Returns the lowercase string representation.
    pub fn as_str(self) -> (s: &'static str)
        ensures
            s@ == (match self {
                DirectionArg::Debit => "debit"@,
                DirectionArg::Credit => "credit"@,
            }),
    {
        match self {
            DirectionArg::Debit => "debit",
            DirectionArg::Credit => "credit",
        }
    }
}

/// Clearance status argument.
#[derive(Debug, Clone, Copy, PartialEq, Eq, Structural)]
pub enum ClearanceArg {
    /// Not yet verified.
    Uncleared,
    /// Matched against a statement (the default).
    Cleared,
    /// Finalised by a reconciliation.
    Reconciled,
}

impl Default for ClearanceArg {
    fn default() -> (c: ClearanceArg)
        ensures
            c == ClearanceArg::Cleared,
    {
        ClearanceArg::Cleared
    }
}

impl ClearanceArg {
    /// Returns the lowercase string representation.
    pub fn as_str(self) -> (s: &'static str)
        ensures
            s@ == (match self {
                ClearanceArg::Uncleared => "uncleared"@,
                ClearanceArg::Cleared => "cleared"@,
                ClearanceArg::Reconciled => "reconciled"@,
            }),
    {
        match self {
            ClearanceArg::Uncleared => "uncleared",
            ClearanceArg::Cleared => "cleared",
            ClearanceArg::Reconciled => "reconciled",
        }
    }
}

/// Account type argument.
#[derive(Debug, Clone, Copy, PartialEq, Eq, Structural)]
pub enum AccountTypeArg {
    /// An asset account.
    Asset,
    /// A liability account.
    Liability,
    /// An equity account.
    Equity,
    /// A revenue account.
    Revenue,
    /// An expense account.
    Expense,
}

impl AccountTypeArg {
    /// The lowercase name of the type, as accounts store it and filters
    /// match it, e.g. `asset`.
    pub fn lowercase_name(self) -> (s: &'static str)
        ensures
            s@ == (match self {
                AccountTypeArg::Asset => "asset"@,
                AccountTypeArg::Liability => "liability"@,
                AccountTypeArg::Equity => "equity"@,
                AccountTypeArg::Revenue => "revenue"@,
                AccountTypeArg::Expense => "expense"@,
            }),
    {
        match self {
            AccountTypeArg::Asset => "asset",
            AccountTypeArg::Liability => "liability",
            AccountTypeArg::Equity => "equity",
            AccountTypeArg::Revenue => "revenue",
            AccountTypeArg::Expense => "expense",
        }
    }

    /// Converts to the library's `AccountType`.
    pub fn to_library_type(self) -> (t: AccountType)
        ensures
            t == (match self {
                AccountTypeArg::Asset => AccountType::Asset,
                AccountTypeArg::Liability => AccountType::Liability,
                AccountTypeArg::Equity => AccountType::Equity,
                AccountTypeArg::Revenue => AccountType::Revenue,
                AccountTypeArg::Expense => AccountType::Expense,
            }),
    {
        match self {
            AccountTypeArg::Asset => AccountType::Asset,
            AccountTypeArg::Liability => AccountType::Liability,
            AccountTypeArg::Equity => AccountType::Equity,
            AccountTypeArg::Revenue => AccountType::Revenue,
            AccountTypeArg::Expense => AccountType::Expense,
        }
    }
}

/// Conflict resolution strategy for duplicate references.
#[derive(Debug, Clone, Copy, PartialEq, Eq, Structural)]
pub enum OnConflictArg {
    /// Return an error on a duplicate reference (the default).
    Error,
    /// Skip the transaction silently on a duplicate reference.
    Skip,
    /// Update the existing transaction.
    Upsert,
}

impl Default for OnConflictArg {
    fn default() -> (c: OnConflictArg)
        ensures
            c == OnConflictArg::Error,
    {
        OnConflictArg::Error
    }
}

/// The effective output format: the command-level format, else JSON when
/// `--json` is set, else the global `--format`, else a table.
pub open spec fn effective_format(command_format: Option<OutputFormat>, cli: FormatOptions) -> OutputFormat {
    match command_format {
        Some(f) => f,
        None => if cli.json {
            OutputFormat::Json
        } else {
            match cli.format {
                Some(f) => f,
                None => OutputFormat::Table,
            }
        },
    }
}

/// Resolves the effective output format.
///
/// Priority: command-level format, then the `--json` flag, then the global
/// `--format`, then `Table`.
pub fn resolve_format(command_format: Option<OutputFormat>, cli: &Cli) -> (f: OutputFormat)
    ensures
        f == effective_format(command_format, cli.output),
{
    if let Some(fmt) = command_format {
        return fmt;
    }
    if cli.output.json {
        return OutputFormat::Json;
    }
    if let Some(fmt) = cli.output.format {
        return fmt;
    }
    OutputFormat::Table
}

/// The company named on the account, transaction or report command itself.
pub open spec fn command_company(c: Command) -> Option<String> {
    match c {
        Command::Account(args) => args.company,
        Command::Txn(args) => args.company,
        Command::Report(args) => args.company,
        _ => None,
    }
}

/// Returns the company slug from the command-level `--company`, else the
/// global `--company` (or `BEANKEEPER_COMPANY`); a usage error when neither
/// is set.
pub fn require_company(cli: &Cli) -> (r: Result<String, CliError>)
    ensures
        command_company(cli.command) matches Some(s) ==> (r matches Ok(t) && t@ == s@),
        command_company(cli.command) is None ==> (cli.company matches Some(s) ==> (r matches Ok(t)
            && t@ == s@)),
        command_company(cli.command) is None && cli.company is None ==> (r matches Err(
            CliError::Usage(m),
        ) && m@ == "missing required --company flag or BEANKEEPER_COMPANY env var"@),
{
    let cmd_company: Option<&String> = match &cli.command {
        Command::Account(args) => args.company.as_ref(),
        Command::Txn(args) => args.company.as_ref(),
        Command::Report(args) => args.company.as_ref(),
        _ => None,
    };
    if let Some(slug) = cmd_company {
        return Ok(slug.clone());
    }
    match &cli.company {
        Some(c) => Ok(c.clone()),
        None => Err(CliError::Usage("missing required --company flag or BEANKEEPER_COMPANY env var".to_string())),
    }
}

} // verus!
