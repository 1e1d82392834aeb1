//! RFC 4180 CSV output: a header row, then one row per record. The `csv`
//! crate writes each record, quoting and escaping fields as needed.
use vstd::prelude::*;
use crate::cli::db::{
    AccountRow, AccountWithBalanceRow, BalanceRow, CompanyRow, OrphanedCorrelation, TaxSummaryRow,
    TransactionRow,
};
use crate::cli::error::CliError;
use crate::cli::output::{normal_balance_text, opt_text};
use crate::text::{i128_to_string, int_decimal, str_eq};

verus! {

/// A character that forces a field into quotes: the delimiter, the quote
/// or a line break.
pub open spec fn csv_special(c: char) -> bool {
    c == ',' || c == '"' || c == '\n' || c == '\r'
}

/// A field's text with each quote doubled.
pub open spec fn csv_escape(f: Seq<char>) -> Seq<char>
    decreases f.len(),
{
    if f.len() == 0 {
        f
    } else {
        csv_escape(f.drop_last()) + if f.last() == '"' {
            seq!['"', '"']
        } else {
            seq![f.last()]
        }
    }
}

/// A field as written: in quotes, with quotes doubled, when it holds a
/// special character; as it is otherwise.
pub open spec fn csv_field_text(f: Seq<char>) -> Seq<char> {
    if exists|i: int| 0 <= i < f.len() && csv_special(#[trigger] f[i]) {
        seq!['"'] + csv_escape(f) + seq!['"']
    } else {
        f
    }
}

/// The fields of a record as written, separated by commas.
pub open spec fn csv_joined(fs: Seq<Seq<char>>) -> Seq<char>
    decreases fs.len(),
{
    if fs.len() == 0 {
        Seq::empty()
    } else if fs.len() == 1 {
        csv_field_text(fs[0])
    } else {
        csv_joined(fs.drop_last()) + seq![','] + csv_field_text(fs.last())
    }
}

/// A record as written, with its line terminator; a record whose text
/// would be empty is written as `""`.
pub open spec fn csv_record_text(fs: Seq<Seq<char>>) -> Seq<char> {
    let j = csv_joined(fs);
    (if j.len() == 0 {
        seq!['"', '"']
    } else {
        j
    }) + seq!['\n']
}

/// The records of a document as written, one after another.
pub open spec fn csv_text(rows: Seq<Seq<Seq<char>>>) -> Seq<char>
    decreases rows.len(),
{
    if rows.len() == 0 {
        Seq::empty()
    } else {
        csv_text(rows.drop_last()) + csv_record_text(rows.last())
    }
}

/// The texts of a list of string slices.
pub open spec fn str_views(v: Seq<&str>) -> Seq<Seq<char>> {
    v.map_values(|s: &str| s@)
}

/// One record written by `csv::Writer::write_record` (default settings:
/// comma delimiter, necessary quoting, doubled quotes, `\n` terminator)
/// into a fresh in-memory writer, and the bytes taken back as a string.
/// The contract states the crate's documented quoting rule. A writer over
/// a `Vec<u8>` raises no I/O error and a first record no length error, and
/// the quoting adds only ASCII to UTF-8 fields, so no error is possible.
#[verifier::external_body]
fn csv_record(fields: &Vec<&str>) -> (r: String)
    ensures
        r@ == csv_record_text(str_views(fields@)),
{
    let mut w = ::csv::Writer::from_writer(Vec::new());
    let _ = w.write_record(fields);
    let bytes = w.into_inner().unwrap_or_default();
    String::from_utf8(bytes).unwrap_or_default()
}

/// Writing one more record appends its text.
pub(crate) proof fn lemma_csv_text_push(rows: Seq<Seq<Seq<char>>>, r: Seq<Seq<char>>)
    ensures
        csv_text(rows.push(r)) == csv_text(rows) + csv_record_text(r),
{
    assert(rows.push(r).drop_last() =~= rows);
}

/// Appends one record to `out`.
pub(crate) fn push_record(out: &mut String, fields: &Vec<&str>)
    ensures
        final(out)@ == old(out)@ + csv_record_text(str_views(fields@)),
{
    let line = csv_record(fields);
    out.append(line.as_str());
}

/// Starts a document with its header record.
pub(crate) fn start_document(header: &Vec<&str>) -> (out: String)
    ensures
        out@ == csv_text(seq![str_views(header@)]),
{
    let mut out = String::new();
    push_record(&mut out, header);
    proof {
        lemma_csv_text_push(Seq::empty(), str_views(header@));
        assert(Seq::<Seq<Seq<char>>>::empty().push(str_views(header@)) =~= seq![
            str_views(header@),
        ]);
    }
    out
}

/// The normal-balance side of a lowercase account type.
pub fn normal_balance_for(account_type: &str) -> (r: &'static str)
    ensures
        r@ == normal_balance_text(account_type@),
{
    if str_eq(account_type, "asset") || str_eq(account_type, "expense") {
        "debit"
    } else if str_eq(account_type, "liability") || str_eq(account_type, "equity") || str_eq(
        account_type,
        "revenue",
    ) {
        "credit"
    } else {
        "unknown"
    }
}

/// The header of the companies listing.
pub open spec fn companies_header() -> Seq<Seq<char>> {
    seq!["slug"@, "name"@, "description"@, "created_at"@]
}

/// The fields of one company.
pub open spec fn company_fields(c: CompanyRow) -> Seq<Seq<char>> {
    seq![c.slug@, c.name@, opt_text(c.description), c.created_at@]
}

/// Renders companies as CSV: `slug`, `name`, `description`, `created_at`.
pub fn render_companies(companies: &[CompanyRow]) -> (r: Result<String, CliError>)
    ensures
        r matches Ok(s) && s@ == csv_text(seq![companies_header()] + companies@.map_values(
            |c: CompanyRow| company_fields(c),
        )),
{
    let header = vec!["slug", "name", "description", "created_at"];
    let mut out = start_document(&header);
    assert(str_views(header@) =~= companies_header());
    assert(companies@.take(0).map_values(|c: CompanyRow| company_fields(c)) =~= Seq::<Seq<Seq<char>>>::empty());
    let mut i: usize = 0;
    while i < companies.len()
        invariant
            i <= companies@.len(),
            out@ == csv_text(seq![companies_header()] + companies@.take(i as int).map_values(
                |c: CompanyRow| company_fields(c),
            )),
        decreases companies@.len() - i,
    {
        let c = &companies[i];
        let desc: &str = match &c.description {
            Some(d) => d.as_str(),
            None => "",
        };
        let fields = vec![c.slug.as_str(), c.name.as_str(), desc, c.created_at.as_str()];
        proof {
            reveal_strlit("");
        }
        assert(fields@.len() == 4);
        assert(fields@[0]@ == c.slug@);
        assert(fields@[2]@ == opt_text(c.description));
        assert(str_views(fields@) =~= company_fields(*c));
        push_record(&mut out, &fields);
        proof {
            let f = |c: CompanyRow| company_fields(c);
            lemma_csv_text_push(seq![companies_header()] + companies@.take(i as int).map_values(f), company_fields(*c));
            assert(seq![companies_header()] + companies@.take(i + 1).map_values(f) =~= (seq![companies_header()]
                + companies@.take(i as int).map_values(f)).push(company_fields(*c)));
        }
        i = i + 1;
    }
    assert(companies@.take(i as int) =~= companies@);
    Ok(out)
}


/// The header of the accounts listing.
pub open spec fn accounts_header() -> Seq<Seq<char>> {
    seq!["code"@, "name"@, "type"@, "normal_balance"@]
}

/// The fields of one account.
pub open spec fn account_fields(x: AccountRow) -> Seq<Seq<char>> {
    seq![x.code@, x.name@, x.account_type@, normal_balance_text(x.account_type@)]
}

/// Renders accounts as CSV: `code`, `name`, `type`, `normal_balance`.
pub fn render_accounts(accounts: &[AccountRow]) -> (r: Result<String, CliError>)
    ensures
        r matches Ok(s) && s@ == csv_text(seq![accounts_header()] + accounts@.map_values(
            |x: AccountRow| account_fields(x),
        )),
{
    let header = vec!["code", "name", "type", "normal_balance"];
    let mut out = start_document(&header);
    assert(str_views(header@) =~= accounts_header());
    assert(accounts@.take(0).map_values(|x: AccountRow| account_fields(x)) =~= Seq::<Seq<Seq<char>>>::empty());
    let mut i: usize = 0;
    while i < accounts.len()
        invariant
            i <= accounts@.len(),
            out@ == csv_text(seq![accounts_header()] + accounts@.take(i as int).map_values(
                |x: AccountRow| account_fields(x),
            )),
        decreases accounts@.len() - i,
    {
        let x = &accounts[i];
        let nb = normal_balance_for(x.account_type.as_str());
        let fields = vec![x.code.as_str(), x.name.as_str(), x.account_type.as_str(), nb];
        assert(fields@.len() == 4);
        assert(fields@[3]@ == normal_balance_text(x.account_type@));
        assert(str_views(fields@) =~= account_fields(*x));
        push_record(&mut out, &fields);
        proof {
            let f = |x: AccountRow| account_fields(x);
            lemma_csv_text_push(seq![accounts_header()] + accounts@.take(i as int).map_values(f), account_fields(*x));
            assert(seq![accounts_header()] + accounts@.take(i + 1).map_values(f) =~= (seq![accounts_header()]
                + accounts@.take(i as int).map_values(f)).push(account_fields(*x)));
        }
        i = i + 1;
    }
    assert(accounts@.take(i as int) =~= accounts@);
    Ok(out)
}

/// The header of the accounts-with-balances listing.
pub open spec fn accounts_with_balances_header() -> Seq<Seq<char>> {
    seq!["code"@, "name"@, "type"@, "normal_balance"@, "debit_total"@, "credit_total"@]
}

/// The fields of one account with its totals.
pub open spec fn account_with_balance_fields(x: AccountWithBalanceRow) -> Seq<Seq<char>> {
    seq![x.code@, x.name@, x.account_type@, normal_balance_text(x.account_type@), int_decimal(x.debit_total as int), int_decimal(x.credit_total as int)]
}

/// Renders accounts with their totals as CSV: `code`, `name`, `type`, `normal_balance`, `debit_total`, `credit_total`.
pub fn render_accounts_with_balances(accounts: &[AccountWithBalanceRow]) -> (r: Result<String, CliError>)
    ensures
        r matches Ok(s) && s@ == csv_text(seq![accounts_with_balances_header()] + accounts@.map_values(
            |x: AccountWithBalanceRow| account_with_balance_fields(x),
        )),
{
    let header = vec!["code", "name", "type", "normal_balance", "debit_total", "credit_total"];
    let mut out = start_document(&header);
    assert(str_views(header@) =~= accounts_with_balances_header());
    assert(accounts@.take(0).map_values(|x: AccountWithBalanceRow| account_with_balance_fields(x)) =~= Seq::<Seq<Seq<char>>>::empty());
    let mut i: usize = 0;
    while i < accounts.len()
        invariant
            i <= accounts@.len(),
            out@ == csv_text(seq![accounts_with_balances_header()] + accounts@.take(i as int).map_values(
                |x: AccountWithBalanceRow| account_with_balance_fields(x),
            )),
        decreases accounts@.len() - i,
    {
        let x = &accounts[i];
        let nb = normal_balance_for(x.account_type.as_str());
        let d = i128_to_string(x.debit_total as i128);
        let c = i128_to_string(x.credit_total as i128);
        let fields = vec![x.code.as_str(), x.name.as_str(), x.account_type.as_str(), nb, d.as_str(), c.as_str()];
        assert(fields@.len() == 6);
        assert(fields@[4]@ == int_decimal(x.debit_total as int));
        assert(str_views(fields@) =~= account_with_balance_fields(*x));
        push_record(&mut out, &fields);
        proof {
            let f = |x: AccountWithBalanceRow| account_with_balance_fields(x);
            lemma_csv_text_push(seq![accounts_with_balances_header()] + accounts@.take(i as int).map_values(f), account_with_balance_fields(*x));
            assert(seq![accounts_with_balances_header()] + accounts@.take(i + 1).map_values(f) =~= (seq![accounts_with_balances_header()]
                + accounts@.take(i as int).map_values(f)).push(account_with_balance_fields(*x)));
        }
        i = i + 1;
    }
    assert(accounts@.take(i as int) =~= accounts@);
    Ok(out)
}

/// The header of the transactions listing.
pub open spec fn transactions_header() -> Seq<Seq<char>> {
    seq!["id"@, "date"@, "description"@, "metadata"@, "currency"@, "reference"@]
}

/// The fields of one transaction.
pub open spec fn transaction_fields(x: TransactionRow) -> Seq<Seq<char>> {
    seq![int_decimal(x.id as int), x.date@, x.description@, opt_text(x.metadata), x.currency@, opt_text(x.reference)]
}

/// Renders transactions as CSV: `id`, `date`, `description`, `metadata`, `currency`, `reference`.
pub fn render_transactions(transactions: &[TransactionRow]) -> (r: Result<String, CliError>)
    ensures
        r matches Ok(s) && s@ == csv_text(seq![transactions_header()] + transactions@.map_values(
            |x: TransactionRow| transaction_fields(x),
        )),
{
    let header = vec!["id", "date", "description", "metadata", "currency", "reference"];
    let mut out = start_document(&header);
    assert(str_views(header@) =~= transactions_header());
    assert(transactions@.take(0).map_values(|x: TransactionRow| transaction_fields(x)) =~= Seq::<Seq<Seq<char>>>::empty());
    let mut i: usize = 0;
    while i < transactions.len()
        invariant
            i <= transactions@.len(),
            out@ == csv_text(seq![transactions_header()] + transactions@.take(i as int).map_values(
                |x: TransactionRow| transaction_fields(x),
            )),
        decreases transactions@.len() - i,
    {
        let x = &transactions[i];
        let id_str = i128_to_string(x.id as i128);
        let meta: &str = match &x.metadata {
            Some(m) => m.as_str(),
            None => "",
        };
        let reference: &str = match &x.reference {
            Some(m) => m.as_str(),
            None => "",
        };
        proof {
            reveal_strlit("");
        }
        let fields = vec![id_str.as_str(), x.date.as_str(), x.description.as_str(), meta, x.currency.as_str(), reference];
        assert(fields@.len() == 6);
        assert(fields@[3]@ == opt_text(x.metadata));
        assert(fields@[5]@ == opt_text(x.reference));
        assert(str_views(fields@) =~= transaction_fields(*x));
        push_record(&mut out, &fields);
        proof {
            let f = |x: TransactionRow| transaction_fields(x);
            lemma_csv_text_push(seq![transactions_header()] + transactions@.take(i as int).map_values(f), transaction_fields(*x));
            assert(seq![transactions_header()] + transactions@.take(i + 1).map_values(f) =~= (seq![transactions_header()]
                + transactions@.take(i as int).map_values(f)).push(transaction_fields(*x)));
        }
        i = i + 1;
    }
    assert(transactions@.take(i as int) =~= transactions@);
    Ok(out)
}

/// The header of the trial balance.
pub open spec fn trial_balance_header() -> Seq<Seq<char>> {
    seq!["code"@, "name"@, "type"@, "debit_total"@, "credit_total"@]
}

/// The fields of one account balance.
pub open spec fn balance_fields(x: BalanceRow) -> Seq<Seq<char>> {
    seq![x.code@, x.name@, x.account_type@, int_decimal(x.debit_total as int), int_decimal(x.credit_total as int)]
}

/// Renders a trial balance as CSV: `code`, `name`, `type`, `debit_total`, `credit_total`.
pub fn render_trial_balance(balances: &[BalanceRow]) -> (r: Result<String, CliError>)
    ensures
        r matches Ok(s) && s@ == csv_text(seq![trial_balance_header()] + balances@.map_values(
            |x: BalanceRow| balance_fields(x),
        )),
{
    let header = vec!["code", "name", "type", "debit_total", "credit_total"];
    let mut out = start_document(&header);
    assert(str_views(header@) =~= trial_balance_header());
    assert(balances@.take(0).map_values(|x: BalanceRow| balance_fields(x)) =~= Seq::<Seq<Seq<char>>>::empty());
    let mut i: usize = 0;
    while i < balances.len()
        invariant
            i <= balances@.len(),
            out@ == csv_text(seq![trial_balance_header()] + balances@.take(i as int).map_values(
                |x: BalanceRow| balance_fields(x),
            )),
        decreases balances@.len() - i,
    {
        let x = &balances[i];
        let d = i128_to_string(x.debit_total as i128);
        let c = i128_to_string(x.credit_total as i128);
        let fields = vec![x.code.as_str(), x.name.as_str(), x.account_type.as_str(), d.as_str(), c.as_str()];
        assert(fields@.len() == 5);
        assert(fields@[3]@ == int_decimal(x.debit_total as int));
        assert(str_views(fields@) =~= balance_fields(*x));
        push_record(&mut out, &fields);
        proof {
            let f = |x: BalanceRow| balance_fields(x);
            lemma_csv_text_push(seq![trial_balance_header()] + balances@.take(i as int).map_values(f), balance_fields(*x));
            assert(seq![trial_balance_header()] + balances@.take(i + 1).map_values(f) =~= (seq![trial_balance_header()]
                + balances@.take(i as int).map_values(f)).push(balance_fields(*x)));
        }
        i = i + 1;
    }
    assert(balances@.take(i as int) =~= balances@);
    Ok(out)
}

/// The header of the orphaned-correlation listing.
pub open spec fn orphans_header() -> Seq<Seq<char>> {
    seq!["transaction_id"@, "company"@, "description"@, "date"@, "partner_id"@]
}

/// The fields of one orphaned correlation.
pub open spec fn orphan_fields(x: OrphanedCorrelation) -> Seq<Seq<char>> {
    seq![int_decimal(x.transaction_id as int), x.company_slug@, x.description@, x.date@, int_decimal(x.partner_id as int)]
}

/// Renders orphaned intercompany correlations as CSV: `transaction_id`, `company`, `description`, `date`, `partner_id`.
pub fn render_orphaned_correlations(orphans: &[OrphanedCorrelation]) -> (r: Result<String, CliError>)
    ensures
        r matches Ok(s) && s@ == csv_text(seq![orphans_header()] + orphans@.map_values(
            |x: OrphanedCorrelation| orphan_fields(x),
        )),
{
    let header = vec!["transaction_id", "company", "description", "date", "partner_id"];
    let mut out = start_document(&header);
    assert(str_views(header@) =~= orphans_header());
    assert(orphans@.take(0).map_values(|x: OrphanedCorrelation| orphan_fields(x)) =~= Seq::<Seq<Seq<char>>>::empty());
    let mut i: usize = 0;
    while i < orphans.len()
        invariant
            i <= orphans@.len(),
            out@ == csv_text(seq![orphans_header()] + orphans@.take(i as int).map_values(
                |x: OrphanedCorrelation| orphan_fields(x),
            )),
        decreases orphans@.len() - i,
    {
        let x = &orphans[i];
        let t = i128_to_string(x.transaction_id as i128);
        let p = i128_to_string(x.partner_id as i128);
        let fields = vec![t.as_str(), x.company_slug.as_str(), x.description.as_str(), x.date.as_str(), p.as_str()];
        assert(fields@.len() == 5);
        assert(fields@[0]@ == int_decimal(x.transaction_id as int));
        assert(str_views(fields@) =~= orphan_fields(*x));
        push_record(&mut out, &fields);
        proof {
            let f = |x: OrphanedCorrelation| orphan_fields(x);
            lemma_csv_text_push(seq![orphans_header()] + orphans@.take(i as int).map_values(f), orphan_fields(*x));
            assert(seq![orphans_header()] + orphans@.take(i + 1).map_values(f) =~= (seq![orphans_header()]
                + orphans@.take(i as int).map_values(f)).push(orphan_fields(*x)));
        }
        i = i + 1;
    }
    assert(orphans@.take(i as int) =~= orphans@);
    Ok(out)
}

/// The header of the tax summary.
pub open spec fn tax_summary_header() -> Seq<Seq<char>> {
    seq!["tax_category"@, "debit_total"@, "credit_total"@]
}

/// The fields of one tax category.
pub open spec fn tax_summary_fields(x: TaxSummaryRow) -> Seq<Seq<char>> {
    seq![x.tax_category@, int_decimal(x.debit_total as int), int_decimal(x.credit_total as int)]
}

/// Renders a tax summary as CSV: `tax_category`, `debit_total`, `credit_total`.
pub fn render_tax_summary(rows: &[TaxSummaryRow]) -> (r: Result<String, CliError>)
    ensures
        r matches Ok(s) && s@ == csv_text(seq![tax_summary_header()] + rows@.map_values(
            |x: TaxSummaryRow| tax_summary_fields(x),
        )),
{
    let header = vec!["tax_category", "debit_total", "credit_total"];
    let mut out = start_document(&header);
    assert(str_views(header@) =~= tax_summary_header());
    assert(rows@.take(0).map_values(|x: TaxSummaryRow| tax_summary_fields(x)) =~= Seq::<Seq<Seq<char>>>::empty());
    let mut i: usize = 0;
    while i < rows.len()
        invariant
            i <= rows@.len(),
            out@ == csv_text(seq![tax_summary_header()] + rows@.take(i as int).map_values(
                |x: TaxSummaryRow| tax_summary_fields(x),
            )),
        decreases rows@.len() - i,
    {
        let x = &rows[i];
        let d = i128_to_string(x.debit_total as i128);
        let c = i128_to_string(x.credit_total as i128);
        let fields = vec![x.tax_category.as_str(), d.as_str(), c.as_str()];
        assert(fields@.len() == 3);
        assert(fields@[1]@ == int_decimal(x.debit_total as int));
        assert(str_views(fields@) =~= tax_summary_fields(*x));
        push_record(&mut out, &fields);
        proof {
            let f = |x: TaxSummaryRow| tax_summary_fields(x);
            lemma_csv_text_push(seq![tax_summary_header()] + rows@.take(i as int).map_values(f), tax_summary_fields(*x));
            assert(seq![tax_summary_header()] + rows@.take(i + 1).map_values(f) =~= (seq![tax_summary_header()]
                + rows@.take(i as int).map_values(f)).push(tax_summary_fields(*x)));
        }
        i = i + 1;
    }
    assert(rows@.take(i as int) =~= rows@);
    Ok(out)
}

/// The header of a single account balance.
pub open spec fn account_balance_header() -> Seq<Seq<char>> {
    seq!["code"@, "name"@, "type"@, "debit_total"@, "credit_total"@, "currency"@]
}

/// The fields of a single account balance in `currency`.
pub open spec fn account_balance_fields(b: BalanceRow, currency: Seq<char>) -> Seq<Seq<char>> {
    seq![
        b.code@,
        b.name@,
        b.account_type@,
        int_decimal(b.debit_total as int),
        int_decimal(b.credit_total as int),
        currency,
    ]
}

/// Renders one account's balance as CSV: `code`, `name`, `type`,
/// `debit_total`, `credit_total`, `currency`.
pub fn render_account_balance(balance: &BalanceRow, currency: &str) -> (r: Result<String, CliError>)
    ensures
        r matches Ok(s) && s@ == csv_text(
            seq![account_balance_header(), account_balance_fields(*balance, currency@)],
        ),
{
    let header = vec!["code", "name", "type", "debit_total", "credit_total", "currency"];
    let mut out = start_document(&header);
    assert(str_views(header@) =~= account_balance_header());
    let d = i128_to_string(balance.debit_total as i128);
    let c = i128_to_string(balance.credit_total as i128);
    let fields = vec![
        balance.code.as_str(),
        balance.name.as_str(),
        balance.account_type.as_str(),
        d.as_str(),
        c.as_str(),
        currency,
    ];
    assert(fields@.len() == 6);
    assert(str_views(fields@) =~= account_balance_fields(*balance, currency@));
    push_record(&mut out, &fields);
    proof {
        lemma_csv_text_push(seq![account_balance_header()], account_balance_fields(*balance, currency@));
        assert(seq![account_balance_header()].push(account_balance_fields(*balance, currency@)) =~= seq![
            account_balance_header(),
            account_balance_fields(*balance, currency@),
        ]);
    }
    Ok(out)
}

} // verus!
