//! The pure part of `bk export`: all companies, accounts and transactions
//! written as one CSV document in three sections, or gathered into one
//! value for JSON.
use vstd::prelude::*;
use crate::cli::db::{AccountRow, CompanyRow, EntryRow, TransactionRow};
use crate::cli::error::CliError;
use crate::cli::output::csv::{
    companies_header, company_fields, csv_text, lemma_csv_text_push, push_record,
    render_companies, start_document, str_views,
};
use crate::cli::output::opt_text;
use crate::text::{i128_to_string, int_decimal, push_str};

verus! {

/// A transaction to export, with the company it belongs to and its
/// entries.
#[derive(Debug, Clone)]
pub struct ExportedTransaction {
    /// The owning company's slug.
    pub company_slug: String,
    /// The transaction.
    pub transaction: TransactionRow,
    /// Its entries.
    pub entries: Vec<EntryRow>,
}

/// The header of the accounts section.
pub open spec fn export_accounts_header() -> Seq<Seq<char>> {
    seq!["company_slug"@, "code"@, "name"@, "type"@]
}

/// The fields of one account in the accounts section.
pub open spec fn export_account_fields(a: AccountRow) -> Seq<Seq<char>> {
    seq![a.company_slug@, a.code@, a.name@, a.account_type@]
}

/// The header of the entries section.
pub open spec fn export_entries_header() -> Seq<Seq<char>> {
    seq![
        "company_slug"@,
        "transaction_id"@,
        "date"@,
        "description"@,
        "metadata"@,
        "currency"@,
        "account_code"@,
        "direction"@,
        "amount"@,
    ]
}

/// The fields of one entry of a transaction in the entries section.
pub open spec fn export_entry_fields(t: ExportedTransaction, e: EntryRow) -> Seq<Seq<char>> {
    seq![
        t.company_slug@,
        int_decimal(t.transaction.id as int),
        t.transaction.date@,
        t.transaction.description@,
        opt_text(t.transaction.metadata),
        t.transaction.currency@,
        e.account_code@,
        e.direction@,
        int_decimal(e.amount as int),
    ]
}

/// The rows of the entries section: each transaction's entries in order.
pub open spec fn export_entry_rows(ts: Seq<ExportedTransaction>) -> Seq<Seq<Seq<char>>>
    decreases ts.len(),
{
    if ts.len() == 0 {
        Seq::empty()
    } else {
        export_entry_rows(ts.drop_last()) + ts.last().entries@.map_values(
            |e: EntryRow| export_entry_fields(ts.last(), e),
        )
    }
}

/// The whole CSV export: the companies, the accounts and the entries, each
/// section headed by a `#` line and separated by a blank line.
pub open spec fn export_csv_spec(
    companies: Seq<CompanyRow>,
    accounts: Seq<AccountRow>,
    transactions: Seq<ExportedTransaction>,
) -> Seq<char> {
    "# Companies\n"@ + csv_text(seq![companies_header()] + companies.map_values(
        |c: CompanyRow| company_fields(c),
    )) + "\n"@ + "# Accounts\n"@ + csv_text(seq![export_accounts_header()] + accounts.map_values(
        |a: AccountRow| export_account_fields(a),
    )) + "\n"@ + "# Entries\n"@ + csv_text(
        seq![export_entries_header()] + export_entry_rows(transactions),
    )
}

/// Writes the accounts section's CSV.
fn accounts_csv(accounts: &[AccountRow]) -> (r: String)
    ensures
        r@ == csv_text(seq![export_accounts_header()] + accounts@.map_values(
            |a: AccountRow| export_account_fields(a),
        )),
{
    let header = vec!["company_slug", "code", "name", "type"];
    let mut out = start_document(&header);
    assert(str_views(header@) =~= export_accounts_header());
    assert(accounts@.take(0).map_values(|a: AccountRow| export_account_fields(a)) =~= Seq::<
        Seq<Seq<char>>,
    >::empty());
    let mut i: usize = 0;
    while i < accounts.len()
        invariant
            i <= accounts@.len(),
            out@ == csv_text(seq![export_accounts_header()] + accounts@.take(i as int).map_values(
                |a: AccountRow| export_account_fields(a),
            )),
        decreases accounts@.len() - i,
    {
        let a = &accounts[i];
        let fields = vec![
            a.company_slug.as_str(),
            a.code.as_str(),
            a.name.as_str(),
            a.account_type.as_str(),
        ];
        assert(fields@.len() == 4);
        assert(str_views(fields@) =~= export_account_fields(*a));
        push_record(&mut out, &fields);
        proof {
            let f = |a: AccountRow| export_account_fields(a);
            lemma_csv_text_push(
                seq![export_accounts_header()] + accounts@.take(i as int).map_values(f),
                export_account_fields(*a),
            );
            assert(seq![export_accounts_header()] + accounts@.take(i + 1).map_values(f) =~= (seq![
                export_accounts_header(),
            ] + accounts@.take(i as int).map_values(f)).push(export_account_fields(*a)));
        }
        i = i + 1;
    }
    assert(accounts@.take(i as int) =~= accounts@);
    out
}

/// Writes the entries section's CSV.
fn entries_csv(transactions: &[ExportedTransaction]) -> (r: String)
    ensures
        r@ == csv_text(seq![export_entries_header()] + export_entry_rows(transactions@)),
{
    let header = vec![
        "company_slug",
        "transaction_id",
        "date",
        "description",
        "metadata",
        "currency",
        "account_code",
        "direction",
        "amount",
    ];
    let mut out = start_document(&header);
    assert(str_views(header@) =~= export_entries_header());
    assert(export_entry_rows(transactions@.take(0)) =~= Seq::<Seq<Seq<char>>>::empty());
    let mut i: usize = 0;
    while i < transactions.len()
        invariant
            i <= transactions@.len(),
            out@ == csv_text(seq![export_entries_header()] + export_entry_rows(
                transactions@.take(i as int),
            )),
        decreases transactions@.len() - i,
    {
        let t = &transactions[i];
        let id_str = i128_to_string(t.transaction.id as i128);
        let meta: &str = match &t.transaction.metadata {
            Some(m) => m.as_str(),
            None => "",
        };
        proof {
            reveal_strlit("");
        }
        let ghost before = seq![export_entries_header()] + export_entry_rows(
            transactions@.take(i as int),
        );
        let mut j: usize = 0;
        while j < t.entries.len()
            invariant
                j <= t.entries@.len(),
                meta@ == opt_text(t.transaction.metadata),
                id_str@ == int_decimal(t.transaction.id as int),
                out@ == csv_text(before + t.entries@.take(j as int).map_values(
                    |e: EntryRow| export_entry_fields(*t, e),
                )),
            decreases t.entries@.len() - j,
        {
            let e = &t.entries[j];
            let amount = i128_to_string(e.amount as i128);
            let fields = vec![
                t.company_slug.as_str(),
                id_str.as_str(),
                t.transaction.date.as_str(),
                t.transaction.description.as_str(),
                meta,
                t.transaction.currency.as_str(),
                e.account_code.as_str(),
                e.direction.as_str(),
                amount.as_str(),
            ];
            assert(fields@.len() == 9);
            assert(str_views(fields@) =~= export_entry_fields(*t, *e));
            push_record(&mut out, &fields);
            proof {
                let f = |e: EntryRow| export_entry_fields(*t, e);
                lemma_csv_text_push(before + t.entries@.take(j as int).map_values(f), export_entry_fields(*t, *e));
                assert(before + t.entries@.take(j + 1).map_values(f) =~= (before + t.entries@.take(
                    j as int,
                ).map_values(f)).push(export_entry_fields(*t, *e)));
            }
            j = j + 1;
        }
        proof {
            let ts = transactions@.take(i + 1);
            assert(ts.drop_last() =~= transactions@.take(i as int));
            assert(ts.last() == *t);
            assert(t.entries@.take(j as int) =~= t.entries@);
            assert(before + t.entries@.map_values(|e: EntryRow| export_entry_fields(*t, e)) =~= seq![
                export_entries_header(),
            ] + export_entry_rows(ts));
        }
        i = i + 1;
    }
    assert(transactions@.take(i as int) =~= transactions@);
    out
}

/// Writes the whole CSV export: companies, accounts, then one row per
/// entry of each transaction, each section headed by a `#` line and the
/// sections separated by a blank line.
pub fn export_csv(
    companies: &[CompanyRow],
    accounts: &[AccountRow],
    transactions: &[ExportedTransaction],
) -> (r: Result<String, CliError>)
    ensures
        r matches Ok(s) && s@ == export_csv_spec(companies@, accounts@, transactions@),
{
    let companies_csv = match render_companies(companies) {
        Ok(s) => s,
        Err(e) => return Err(e),
    };
    let mut out = "# Companies\n".to_string();
    out.append(companies_csv.as_str());
    push_str(&mut out, "\n");
    push_str(&mut out, "# Accounts\n");
    out.append(accounts_csv(accounts).as_str());
    push_str(&mut out, "\n");
    push_str(&mut out, "# Entries\n");
    out.append(entries_csv(transactions).as_str());
    assert(out@ =~= export_csv_spec(companies@, accounts@, transactions@));
    Ok(out)
}

/// One entry in the JSON export.
#[derive(Debug, Clone)]
pub struct EntryExport {
    pub account_code: String,
    pub direction: String,
    pub amount: i64,
}

/// One transaction in the JSON export, with its entries.
#[derive(Debug, Clone)]
pub struct TransactionExport {
    pub id: i64,
    pub description: String,
    pub metadata: Option<String>,
    pub currency: String,
    pub date: String,
    pub posted_at: String,
    pub entries: Vec<EntryExport>,
}

/// One account in the JSON export; `account_type` is written as `type`.
#[derive(Debug, Clone)]
pub struct AccountExport {
    pub code: String,
    pub name: String,
    pub account_type: String,
}

/// One company in the JSON export, with its accounts and transactions.
#[derive(Debug, Clone)]
pub struct CompanyExport {
    pub slug: String,
    pub name: String,
    pub created_at: String,
    pub accounts: Vec<AccountExport>,
    pub transactions: Vec<TransactionExport>,
}

/// The whole JSON export, written under `beankeeper_export`.
#[derive(Debug, Clone)]
pub struct Export {
    /// The format version, 1.
    pub version: i64,
    /// The companies.
    pub companies: Vec<CompanyExport>,
}

/// A company to export, with its accounts and transactions.
#[derive(Debug, Clone)]
pub struct ExportedCompany {
    /// The company.
    pub company: CompanyRow,
    /// Its accounts.
    pub accounts: Vec<AccountRow>,
    /// Its transactions, with their entries.
    pub transactions: Vec<ExportedTransaction>,
}

/// The JSON export form of an entry.
pub open spec fn entry_export(e: EntryRow) -> EntryExport {
    EntryExport { account_code: e.account_code, direction: e.direction, amount: e.amount }
}

/// The JSON export form of an account.
pub open spec fn account_export(a: AccountRow) -> AccountExport {
    AccountExport { code: a.code, name: a.name, account_type: a.account_type }
}

/// Whether `j` is the JSON export form of transaction `t`.
pub open spec fn transaction_export_matches(j: TransactionExport, t: ExportedTransaction) -> bool {
    &&& j.id == t.transaction.id
    &&& j.description == t.transaction.description
    &&& j.metadata == t.transaction.metadata
    &&& j.currency == t.transaction.currency
    &&& j.date == t.transaction.date
    &&& j.posted_at == t.transaction.posted_at
    &&& j.entries@ == t.entries@.map_values(|e: EntryRow| entry_export(e))
}

/// Whether `j` is the JSON export form of company `c`.
pub open spec fn company_export_matches(j: CompanyExport, c: ExportedCompany) -> bool {
    &&& j.slug == c.company.slug
    &&& j.name == c.company.name
    &&& j.created_at == c.company.created_at
    &&& j.accounts@ == c.accounts@.map_values(|a: AccountRow| account_export(a))
    &&& j.transactions@.len() == c.transactions@.len()
    &&& forall|k: int|
        0 <= k < j.transactions@.len() ==> transaction_export_matches(
            #[trigger] j.transactions@[k],
            c.transactions@[k],
        )
}

/// The JSON export form of a transaction.
fn transaction_export(t: &ExportedTransaction) -> (r: TransactionExport)
    ensures
        transaction_export_matches(r, *t),
{
    let mut entries: Vec<EntryExport> = Vec::new();
    let mut i: usize = 0;
    while i < t.entries.len()
        invariant
            i <= t.entries@.len(),
            entries@ == t.entries@.take(i as int).map_values(|e: EntryRow| entry_export(e)),
        decreases t.entries@.len() - i,
    {
        let e = &t.entries[i];
        entries.push(
            EntryExport {
                account_code: e.account_code.clone(),
                direction: e.direction.clone(),
                amount: e.amount,
            },
        );
        assert(t.entries@.take(i + 1).map_values(|e: EntryRow| entry_export(e)) =~= t.entries@.take(
            i as int,
        ).map_values(|e: EntryRow| entry_export(e)).push(entry_export(*e)));
        i = i + 1;
    }
    assert(t.entries@.take(i as int) =~= t.entries@);
    let metadata = match &t.transaction.metadata {
        Some(m) => Some(m.clone()),
        None => None,
    };
    TransactionExport {
        id: t.transaction.id,
        description: t.transaction.description.clone(),
        metadata,
        currency: t.transaction.currency.clone(),
        date: t.transaction.date.clone(),
        posted_at: t.transaction.posted_at.clone(),
        entries,
    }
}

/// The JSON export form of a company.
fn company_export(c: &ExportedCompany) -> (r: CompanyExport)
    ensures
        company_export_matches(r, *c),
{
    let mut accounts: Vec<AccountExport> = Vec::new();
    let mut i: usize = 0;
    while i < c.accounts.len()
        invariant
            i <= c.accounts@.len(),
            accounts@ == c.accounts@.take(i as int).map_values(|a: AccountRow| account_export(a)),
        decreases c.accounts@.len() - i,
    {
        let a = &c.accounts[i];
        accounts.push(
            AccountExport {
                code: a.code.clone(),
                name: a.name.clone(),
                account_type: a.account_type.clone(),
            },
        );
        assert(c.accounts@.take(i + 1).map_values(|a: AccountRow| account_export(a))
            =~= c.accounts@.take(i as int).map_values(|a: AccountRow| account_export(a)).push(
            account_export(*a),
        ));
        i = i + 1;
    }
    assert(c.accounts@.take(i as int) =~= c.accounts@);
    let mut transactions: Vec<TransactionExport> = Vec::new();
    let mut j: usize = 0;
    while j < c.transactions.len()
        invariant
            j <= c.transactions@.len(),
            transactions@.len() == j,
            forall|k: int|
                0 <= k < j ==> transaction_export_matches(
                    #[trigger] transactions@[k],
                    c.transactions@[k],
                ),
        decreases c.transactions@.len() - j,
    {
        transactions.push(transaction_export(&c.transactions[j]));
        j = j + 1;
    }
    CompanyExport {
        slug: c.company.slug.clone(),
        name: c.company.name.clone(),
        created_at: c.company.created_at.clone(),
        accounts,
        transactions,
    }
}

/// Gathers all companies, with their accounts and transactions, into the
/// JSON export (version 1).
pub fn export_json(companies: &[ExportedCompany]) -> (r: Export)
    ensures
        r.version == 1,
        r.companies@.len() == companies@.len(),
        forall|i: int|
            0 <= i < r.companies@.len() ==> company_export_matches(
                #[trigger] r.companies@[i],
                companies@[i],
            ),
{
    let mut out: Vec<CompanyExport> = Vec::new();
    let mut i: usize = 0;
    while i < companies.len()
        invariant
            i <= companies@.len(),
            out@.len() == i,
            forall|k: int| 0 <= k < i ==> company_export_matches(#[trigger] out@[k], companies@[k]),
        decreases companies@.len() - i,
    {
        out.push(company_export(&companies[i]));
        i = i + 1;
    }
    Export { version: 1, companies: out }
}

} // verus!
