//! Pure parts of the `bk` subcommands.
use vstd::prelude::*;
use super::{AccountCommand, Command, CompanyCommand, ReportCommand, TxnCommand};

pub mod txn;
pub mod import_ofx;
pub mod report;
pub mod export;
pub mod init;
pub mod audit;
pub mod verify;
pub mod budget;

verus! {

/// The dot-notation name of a command, e.g. `txn.post`.
pub open spec fn command_name_of(cmd: Command) -> Seq<char> {
    match cmd {
        Command::Init { .. } => "init"@,
        Command::Verify => "verify"@,
        Command::Export { .. } => "export"@,
        Command::Company(sub) => match sub {
            CompanyCommand::Create { .. } => "company.create"@,
            CompanyCommand::List => "company.list"@,
            CompanyCommand::Show { .. } => "company.show"@,
            CompanyCommand::Delete { .. } => "company.delete"@,
        },
        Command::Account(args) => match args.command {
            AccountCommand::Create { .. } => "account.create"@,
            AccountCommand::List { .. } => "account.list"@,
            AccountCommand::Show { .. } => "account.show"@,
            AccountCommand::Delete { .. } => "account.delete"@,
        },
        Command::Txn(args) => match *args.command {
            TxnCommand::Post { .. } => "txn.post"@,
            TxnCommand::List { .. } => "txn.list"@,
            TxnCommand::Show { .. } => "txn.show"@,
            TxnCommand::Import { .. } => "txn.import"@,
            TxnCommand::Attach { .. } => "txn.attach"@,
            TxnCommand::Clear { .. } => "txn.clear"@,
            TxnCommand::Reconcile => "txn.reconcile"@,
        },
        Command::Report(args) => match args.command {
            ReportCommand::TrialBalance { .. } => "report.trial-balance"@,
            ReportCommand::Balance { .. } => "report.balance"@,
            ReportCommand::IncomeStatement { .. } => "report.income-statement"@,
            ReportCommand::BalanceSheet { .. } => "report.balance-sheet"@,
            ReportCommand::TaxSummary { .. } => "report.tax-summary"@,
        },
    }
}

/// Maps a parsed `Command` to its dot-notation command name.
pub fn command_name(cmd: &Command) -> (s: &'static str)
    ensures
        s@ == command_name_of(*cmd),
{
    match cmd {
        Command::Init { .. } => "init",
        Command::Verify => "verify",
        Command::Export { .. } => "export",
        Command::Company(sub) => match sub {
            CompanyCommand::Create { .. } => "company.create",
            CompanyCommand::List => "company.list",
            CompanyCommand::Show { .. } => "company.show",
            CompanyCommand::Delete { .. } => "company.delete",
        },
        Command::Account(args) => match &args.command {
            AccountCommand::Create { .. } => "account.create",
            AccountCommand::List { .. } => "account.list",
            AccountCommand::Show { .. } => "account.show",
            AccountCommand::Delete { .. } => "account.delete",
        },
        Command::Txn(args) => match &*args.command {
            TxnCommand::Post { .. } => "txn.post",
            TxnCommand::List { .. } => "txn.list",
            TxnCommand::Show { .. } => "txn.show",
            TxnCommand::Import { .. } => "txn.import",
            TxnCommand::Attach { .. } => "txn.attach",
            TxnCommand::Clear { .. } => "txn.clear",
            TxnCommand::Reconcile => "txn.reconcile",
        },
        Command::Report(args) => match &args.command {
            ReportCommand::TrialBalance { .. } => "report.trial-balance",
            ReportCommand::Balance { .. } => "report.balance",
            ReportCommand::IncomeStatement { .. } => "report.income-statement",
            ReportCommand::BalanceSheet { .. } => "report.balance-sheet",
            ReportCommand::TaxSummary { .. } => "report.tax-summary",
        },
    }
}

} // verus!
