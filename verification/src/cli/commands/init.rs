//! The demo data of `bk init --demo`: three companies (two businesses and
//! the owner's personal books), their charts of accounts, their regular
//! transactions, and intercompany pairs whose second half refers to the
//! first. Every demo transaction balances.
use vstd::prelude::*;
use crate::cli::db::PostEntryParams;
use crate::cli::db::audit::opt_string_view;

verus! {

/// A demo company.
#[derive(Debug, Clone)]
pub struct DemoCompany {
    pub slug: String,
    pub name: String,
    pub description: String,
}

/// An account of a demo chart of accounts.
#[derive(Debug, Clone)]
pub struct DemoAccount {
    pub code: String,
    pub name: String,
    pub account_type: String,
    pub tax_category: Option<String>,
}

/// A demo transaction, posted under its idempotency reference.
#[derive(Debug, Clone)]
pub struct DemoTransaction {
    pub company: String,
    pub description: String,
    pub currency: String,
    pub date: String,
    pub entries: Vec<PostEntryParams>,
    pub reference: String,
}

/// An entry's direction is `debit`.
pub open spec fn is_debit_entry(e: PostEntryParams) -> bool {
    e.direction@ == "debit"@
}

/// The total of the debit entries.
pub open spec fn debit_sum(es: Seq<PostEntryParams>) -> int
    decreases es.len(),
{
    if es.len() == 0 {
        0
    } else {
        debit_sum(es.drop_last()) + if is_debit_entry(es.last()) {
            es.last().amount as int
        } else {
            0
        }
    }
}

/// The total of the credit entries.
pub open spec fn credit_sum(es: Seq<PostEntryParams>) -> int
    decreases es.len(),
{
    if es.len() == 0 {
        0
    } else {
        credit_sum(es.drop_last()) + if es.last().direction@ == "credit"@ {
            es.last().amount as int
        } else {
            0
        }
    }
}

/// Every entry is a debit or a credit of a positive amount.
pub open spec fn well_formed_entries(es: Seq<PostEntryParams>) -> bool {
    forall|i: int|
        0 <= i < es.len() ==> (#[trigger] es[i]).amount > 0 && (es[i].direction@ == "debit"@
            || es[i].direction@ == "credit"@)
}

/// A transaction balances: its debits equal its credits, and both are
/// positive.
pub open spec fn balances(es: Seq<PostEntryParams>) -> bool {
    &&& well_formed_entries(es)
    &&& debit_sum(es) == credit_sum(es)
    &&& debit_sum(es) > 0
}

/// An entry as plain values: account code, direction, amount, memo and
/// tax category.
pub type EntryView = (Seq<char>, Seq<char>, int, Option<Seq<char>>, Option<Seq<char>>);

/// A demo transaction as plain values: company, description, currency,
/// date, entries and reference.
pub type DemoView = (Seq<char>, Seq<char>, Seq<char>, Seq<char>, Seq<EntryView>, Seq<char>);

/// An entry's plain values.
pub open spec fn entry_view(e: PostEntryParams) -> EntryView {
    (e.account_code@, e.direction@, e.amount as int, opt_string_view(e.memo), opt_string_view(e.tax_category))
}

/// The plain values of entries, in order.
pub open spec fn entries_view(es: Seq<PostEntryParams>) -> Seq<EntryView> {
    es.map_values(|e: PostEntryParams| entry_view(e))
}

/// A demo transaction's plain values.
pub open spec fn demo_view(t: DemoTransaction) -> DemoView {
    (t.company@, t.description@, t.currency@, t.date@, entries_view(t.entries@), t.reference@)
}

/// The plain values of demo transactions, in order.
pub open spec fn demos_view(ts: Seq<DemoTransaction>) -> Seq<DemoView> {
    ts.map_values(|t: DemoTransaction| demo_view(t))
}

/// A demo transaction in US dollars, as plain values.
pub open spec fn demo_view_of(
    company: Seq<char>,
    description: Seq<char>,
    date: Seq<char>,
    entries: Seq<EntryView>,
    reference: Seq<char>,
) -> DemoView {
    (company, description, "USD"@, date, entries, reference)
}

/// A debit of `amount` to account `code`.
pub open spec fn sd(code: Seq<char>, amount: int) -> EntryView {
    (code, "debit"@, amount, None, None)
}

/// A credit of `amount` to account `code`.
pub open spec fn sc(code: Seq<char>, amount: int) -> EntryView {
    (code, "credit"@, amount, None, None)
}

/// A debit with a tax category.
pub open spec fn sd_tax(code: Seq<char>, amount: int, tax: Seq<char>) -> EntryView {
    (code, "debit"@, amount, None, Some(tax))
}

/// A credit with a tax category.
pub open spec fn sc_tax(code: Seq<char>, amount: int, tax: Seq<char>) -> EntryView {
    (code, "credit"@, amount, None, Some(tax))
}

/// A debit with a memo.
pub open spec fn sd_memo(code: Seq<char>, amount: int, memo: Seq<char>) -> EntryView {
    (code, "debit"@, amount, Some(memo), None)
}

/// The regular demo transactions of acme-consulting, in posting order.
pub open spec fn consulting_demo() -> Seq<DemoView> {
    seq![
        demo_view_of(
            "acme-consulting"@,
            "Owner capital contribution"@,
            "2025-01-01"@,
            seq![
                sd("1000"@, 2_500_000),
                sc("3000"@, 2_500_000),
            ],
            "AC-001"@,
        ),
        demo_view_of(
            "acme-consulting"@,
            "January office rent"@,
            "2025-01-05"@,
            seq![
                sd_tax("5000"@, 250_000, "rent"@),
                sc("1000"@, 250_000),
            ],
            "AC-002"@,
        ),
        demo_view_of(
            "acme-consulting"@,
            "Invoice #101 - Globex Corp"@,
            "2025-01-15"@,
            seq![
                sd("1100"@, 1_200_000),
                sc_tax("4000"@, 1_200_000, "income"@),
            ],
            "AC-003"@,
        ),
        demo_view_of(
            "acme-consulting"@,
            "Payment from Globex Corp"@,
            "2025-01-28"@,
            seq![
                sd("1000"@, 1_200_000),
                sc("1100"@, 1_200_000),
            ],
            "AC-004"@,
        ),
        demo_view_of(
            "acme-consulting"@,
            "Office supplies - paper and toner"@,
            "2025-02-03"@,
            seq![
                sd_tax("5200"@, 27_500, "supplies"@),
                sc("1000"@, 27_500),
            ],
            "AC-005"@,
        ),
        demo_view_of(
            "acme-consulting"@,
            "Invoice #102 - Initech"@,
            "2025-02-15"@,
            seq![
                sd("1100"@, 850_000),
                sc_tax("4000"@, 850_000, "income"@),
            ],
            "AC-006"@,
        ),
        demo_view_of(
            "acme-consulting"@,
            "February office rent"@,
            "2025-02-05"@,
            seq![
                sd_tax("5000"@, 250_000, "rent"@),
                sc("1000"@, 250_000),
            ],
            "AC-007"@,
        ),
    ]
}

/// The regular demo transactions of acme-products, in posting order.
pub open spec fn products_demo() -> Seq<DemoView> {
    seq![
        demo_view_of(
            "acme-products"@,
            "Owner capital contribution"@,
            "2025-01-01"@,
            seq![
                sd("1000"@, 1_500_000),
                sc("3000"@, 1_500_000),
            ],
            "AP-001"@,
        ),
        demo_view_of(
            "acme-products"@,
            "Initial widget inventory (500 units)"@,
            "2025-01-08"@,
            seq![
                sd_memo("1200"@, 500_000, "500 widgets @ $10"@),
                sc("1000"@, 500_000),
            ],
            "AP-002"@,
        ),
        demo_view_of(
            "acme-products"@,
            "Widget sale - 100 units"@,
            "2025-01-20"@,
            seq![
                sd("1100"@, 250_000),
                sc_tax("4000"@, 250_000, "income"@),
            ],
            "AP-003"@,
        ),
        demo_view_of(
            "acme-products"@,
            "COGS - 100 widgets sold"@,
            "2025-01-20"@,
            seq![
                sd_tax("5000"@, 100_000, "cogs"@),
                sc("1200"@, 100_000),
            ],
            "AP-004"@,
        ),
        demo_view_of(
            "acme-products"@,
            "Payment received - widget sale"@,
            "2025-02-01"@,
            seq![
                sd("1000"@, 250_000),
                sc("1100"@, 250_000),
            ],
            "AP-005"@,
        ),
        demo_view_of(
            "acme-products"@,
            "Shipping costs - January"@,
            "2025-01-31"@,
            seq![
                sd_tax("5100"@, 35_000, "shipping"@),
                sc("1000"@, 35_000),
            ],
            "AP-006"@,
        ),
    ]
}

/// The regular demo transactions of the personal books, in posting order.
pub open spec fn personal_demo() -> Seq<DemoView> {
    seq![
        demo_view_of(
            "personal"@,
            "Opening balance - savings"@,
            "2025-01-01"@,
            seq![
                sd("1100"@, 5_000_000),
                sc("3000"@, 5_000_000),
            ],
            "PR-001"@,
        ),
        demo_view_of(
            "personal"@,
            "Opening balance - checking"@,
            "2025-01-01"@,
            seq![
                sd("1000"@, 500_000),
                sc("3000"@, 500_000),
            ],
            "PR-002"@,
        ),
        demo_view_of(
            "personal"@,
            "January apartment rent"@,
            "2025-01-03"@,
            seq![
                sd_tax("5000"@, 180_000, "housing"@),
                sc("1000"@, 180_000),
            ],
            "PR-003"@,
        ),
        demo_view_of(
            "personal"@,
            "Weekly groceries"@,
            "2025-01-07"@,
            seq![
                sd_tax("5100"@, 18_550, "food"@),
                sc("2000"@, 18_550),
            ],
            "PR-004"@,
        ),
        demo_view_of(
            "personal"@,
            "Electric and internet"@,
            "2025-01-15"@,
            seq![
                sd_tax("5200"@, 21_000, "utilities"@),
                sc("1000"@, 21_000),
            ],
            "PR-005"@,
        ),
        demo_view_of(
            "personal"@,
            "February apartment rent"@,
            "2025-02-03"@,
            seq![
                sd_tax("5000"@, 180_000, "housing"@),
                sc("1000"@, 180_000),
            ],
            "PR-006"@,
        ),
        demo_view_of(
            "personal"@,
            "Quarterly dividend - index fund"@,
            "2025-01-31"@,
            seq![
                sd("1100"@, 32_000),
                sc_tax("4100"@, 32_000, "investment"@),
            ],
            "PR-007"@,
        ),
    ]
}

/// The intercompany demo pairs, in posting order: the first half of each
/// pair, then the half that refers to it.
pub open spec fn intercompany_demo() -> Seq<(DemoView, DemoView)> {
    seq![
        (
            demo_view_of(
                "personal"@,
                "Loan to Acme Consulting"@,
                "2025-01-02"@,
                seq![
                    sd("1500"@, 500_000),
                    sc("1100"@, 500_000),
                ],
                "IC-001-P"@,
            ),
            demo_view_of(
                "acme-consulting"@,
                "Loan from owner (personal)"@,
                "2025-01-02"@,
                seq![
                    sd("1000"@, 500_000),
                    sc("2500"@, 500_000),
                ],
                "IC-001-C"@,
            ),
        ),
        (
            demo_view_of(
                "acme-consulting"@,
                "Software licences from Acme Products"@,
                "2025-02-01"@,
                seq![
                    sd_tax("5100"@, 360_000, "software"@),
                    sc("2000"@, 360_000),
                ],
                "IC-002-C"@,
            ),
            demo_view_of(
                "acme-products"@,
                "Licence sale to Acme Consulting"@,
                "2025-02-01"@,
                seq![
                    sd("1500"@, 360_000),
                    sc_tax("4100"@, 360_000, "income"@),
                ],
                "IC-002-P"@,
            ),
        ),
        (
            demo_view_of(
                "acme-consulting"@,
                "February payroll - owner salary"@,
                "2025-02-15"@,
                seq![
                    sd_tax("5300"@, 500_000, "payroll"@),
                    sc_tax("2600"@, 60_000, "payroll-tax"@),
                    sc_tax("2700"@, 25_000, "payroll-tax"@),
                    sc_tax("2800"@, 38_250, "payroll-tax"@),
                    sc("1000"@, 376_750),
                ],
                "IC-003-C"@,
            ),
            demo_view_of(
                "personal"@,
                "February paycheck from Acme Consulting"@,
                "2025-02-15"@,
                seq![
                    sd("1000"@, 376_750),
                    sd_tax("5300"@, 60_000, "fed-tax"@),
                    sd_tax("5400"@, 25_000, "state-tax"@),
                    sd_tax("5500"@, 38_250, "fica"@),
                    sc_tax("4000"@, 500_000, "w2-income"@),
                ],
                "IC-003-P"@,
            ),
        ),
        (
            demo_view_of(
                "acme-consulting"@,
                "Payment to Acme Products - licence invoice"@,
                "2025-02-20"@,
                seq![
                    sd("2000"@, 360_000),
                    sc("1000"@, 360_000),
                ],
                "IC-004-C"@,
            ),
            demo_view_of(
                "acme-products"@,
                "Payment from Acme Consulting"@,
                "2025-02-20"@,
                seq![
                    sd("1000"@, 360_000),
                    sc("1500"@, 360_000),
                ],
                "IC-004-P"@,
            ),
        ),
    ]
}

/// A debit entry.
pub fn dr(code: &str, amount: i64) -> (e: PostEntryParams)
    ensures
        entry_view(e) == sd(code@, amount as int),
        e.account_code@ == code@,
        e.direction@ == "debit"@,
        e.amount == amount,
        e.memo is None,
        e.tax_category is None,
{
    PostEntryParams {
        account_code: code.to_string(),
        direction: "debit".to_string(),
        amount,
        memo: None,
        tax_category: None,
    }
}

/// A credit entry.
pub fn cr(code: &str, amount: i64) -> (e: PostEntryParams)
    ensures
        entry_view(e) == sc(code@, amount as int),
        e.account_code@ == code@,
        e.direction@ == "credit"@,
        e.amount == amount,
        e.memo is None,
        e.tax_category is None,
{
    PostEntryParams {
        account_code: code.to_string(),
        direction: "credit".to_string(),
        amount,
        memo: None,
        tax_category: None,
    }
}

/// A debit entry with a tax category.
pub fn dr_tax(code: &str, amount: i64, tax: &str) -> (e: PostEntryParams)
    ensures
        entry_view(e) == sd_tax(code@, amount as int, tax@),
        e.account_code@ == code@,
        e.direction@ == "debit"@,
        e.amount == amount,
        e.memo is None,
        e.tax_category matches Some(t) && t@ == tax@,
{
    PostEntryParams {
        account_code: code.to_string(),
        direction: "debit".to_string(),
        amount,
        memo: None,
        tax_category: Some(tax.to_string()),
    }
}

/// A credit entry with a tax category.
pub fn cr_tax(code: &str, amount: i64, tax: &str) -> (e: PostEntryParams)
    ensures
        entry_view(e) == sc_tax(code@, amount as int, tax@),
        e.account_code@ == code@,
        e.direction@ == "credit"@,
        e.amount == amount,
        e.memo is None,
        e.tax_category matches Some(t) && t@ == tax@,
{
    PostEntryParams {
        account_code: code.to_string(),
        direction: "credit".to_string(),
        amount,
        memo: None,
        tax_category: Some(tax.to_string()),
    }
}

/// A debit entry with a memo.
pub fn dr_memo(code: &str, amount: i64, memo: &str) -> (e: PostEntryParams)
    ensures
        entry_view(e) == sd_memo(code@, amount as int, memo@),
        e.account_code@ == code@,
        e.direction@ == "debit"@,
        e.amount == amount,
        e.memo matches Some(m) && m@ == memo@,
        e.tax_category is None,
{
    PostEntryParams {
        account_code: code.to_string(),
        direction: "debit".to_string(),
        amount,
        memo: Some(memo.to_string()),
        tax_category: None,
    }
}

/// A demo transaction in US dollars.
fn demo(
    company: &str,
    description: &str,
    date: &str,
    entries: Vec<PostEntryParams>,
    reference: &str,
) -> (t: DemoTransaction)
    requires
        balances(entries@),
    ensures
        t.company@ == company@,
        t.description@ == description@,
        t.currency@ == "USD"@,
        t.date@ == date@,
        t.entries@ == entries@,
        t.reference@ == reference@,
        demo_view(t) == demo_view_of(company@, description@, date@, entries_view(entries@), reference@),
{
    DemoTransaction {
        company: company.to_string(),
        description: description.to_string(),
        currency: "USD".to_string(),
        date: date.to_string(),
        entries,
        reference: reference.to_string(),
    }
}

/// The entries of a one-debit, one-credit transaction.
fn pair(d: PostEntryParams, c: PostEntryParams) -> (v: Vec<PostEntryParams>)
    ensures
        v@ == seq![d, c],
        entries_view(v@) == seq![entry_view(d), entry_view(c)],
{
    let v = vec![d, c];
    assert(entries_view(v@) =~= seq![entry_view(d), entry_view(c)]);
    v
}

/// A two-entry transaction of one debit and one credit of the same
/// positive amount balances.
proof fn lemma_pair_balances(d: PostEntryParams, c: PostEntryParams)
    requires
        d.direction@ == "debit"@,
        c.direction@ == "credit"@,
        d.amount == c.amount,
        d.amount > 0,
    ensures
        balances(seq![d, c]),
{
    lemma_debit_not_credit();
    let s = seq![d, c];
    assert(s.drop_last() =~= seq![d]);
    assert(seq![d].drop_last() =~= Seq::<PostEntryParams>::empty());
    assert(debit_sum(Seq::<PostEntryParams>::empty()) == 0);
    assert(credit_sum(Seq::<PostEntryParams>::empty()) == 0);
    assert(seq![d].last() == d);
    assert(debit_sum(seq![d]) == d.amount);
    assert(credit_sum(seq![d]) == 0);
    assert(debit_sum(s) == d.amount);
    assert(credit_sum(s) == c.amount);
    assert(well_formed_entries(s)) by {
        assert forall|i: int| 0 <= i < s.len() implies (#[trigger] s[i]).amount > 0 && (
        s[i].direction@ == "debit"@ || s[i].direction@ == "credit"@) by {
            if i == 0 {
                assert(s[i] == d);
            } else {
                assert(s[i] == c);
            }
        }
    }
}

/// The two direction names differ.
proof fn lemma_debit_not_credit()
    ensures
        "debit"@ != "credit"@,
{
    reveal_strlit("debit");
    reveal_strlit("credit");
    assert("debit"@.len() != "credit"@.len());
}

/// An account of a demo chart as plain values: code, name, type and
/// default tax category.
pub type AccountView = (Seq<char>, Seq<char>, Seq<char>, Option<Seq<char>>);

/// The plain values of demo accounts, in order.
pub open spec fn accounts_view(a: Seq<DemoAccount>) -> Seq<AccountView> {
    a.map_values(|x: DemoAccount| (x.code@, x.name@, x.account_type@, opt_string_view(x.tax_category)))
}

/// The chart of accounts of acme-consulting, in creation order.
pub open spec fn consulting_chart() -> Seq<AccountView> {
    seq![
        ("1000"@, "Operating Cash"@, "asset"@, None),
        ("1100"@, "Accounts Receivable"@, "asset"@, None),
        ("1500"@, "Due from Acme Products"@, "asset"@, None),
        ("2000"@, "Accounts Payable"@, "liability"@, None),
        ("2500"@, "Due to Owner"@, "liability"@, None),
        ("3000"@, "Owner Equity"@, "equity"@, None),
        ("4000"@, "Consulting Revenue"@, "revenue"@, Some("income"@)),
        ("5000"@, "Rent Expense"@, "expense"@, Some("rent"@)),
        ("5100"@, "Software Licences"@, "expense"@, Some("software"@)),
        ("5200"@, "Office Supplies"@, "expense"@, Some("supplies"@)),
        ("5300"@, "Salary Expense"@, "expense"@, Some("payroll"@)),
        ("2600"@, "Federal Tax Payable"@, "liability"@, Some("payroll-tax"@)),
        ("2700"@, "State Tax Payable"@, "liability"@, Some("payroll-tax"@)),
        ("2800"@, "FICA Payable"@, "liability"@, Some("payroll-tax"@)),
    ]
}

/// The chart of accounts of acme-products, in creation order.
pub open spec fn products_chart() -> Seq<AccountView> {
    seq![
        ("1000"@, "Operating Cash"@, "asset"@, None),
        ("1100"@, "Accounts Receivable"@, "asset"@, None),
        ("1200"@, "Inventory"@, "asset"@, None),
        ("1500"@, "Due from Acme Consulting"@, "asset"@, None),
        ("2000"@, "Accounts Payable"@, "liability"@, None),
        ("3000"@, "Owner Equity"@, "equity"@, None),
        ("4000"@, "Product Sales"@, "revenue"@, Some("income"@)),
        ("4100"@, "Licence Revenue"@, "revenue"@, Some("income"@)),
        ("5000"@, "Cost of Goods Sold"@, "expense"@, Some("cogs"@)),
        ("5100"@, "Shipping Expense"@, "expense"@, Some("shipping"@)),
    ]
}

/// The chart of accounts of the personal books, in creation order.
pub open spec fn personal_chart() -> Seq<AccountView> {
    seq![
        ("1000"@, "Checking Account"@, "asset"@, None),
        ("1100"@, "Savings Account"@, "asset"@, None),
        ("1500"@, "Due from Acme Consulting"@, "asset"@, None),
        ("2000"@, "Credit Card"@, "liability"@, None),
        ("3000"@, "Net Worth"@, "equity"@, None),
        ("4000"@, "Salary Income"@, "revenue"@, Some("w2-income"@)),
        ("4100"@, "Investment Income"@, "revenue"@, Some("investment"@)),
        ("5000"@, "Rent"@, "expense"@, Some("housing"@)),
        ("5100"@, "Groceries"@, "expense"@, Some("food"@)),
        ("5200"@, "Utilities"@, "expense"@, Some("utilities"@)),
        ("5300"@, "Federal Tax Withheld"@, "expense"@, Some("fed-tax"@)),
        ("5400"@, "State Tax Withheld"@, "expense"@, Some("state-tax"@)),
        ("5500"@, "FICA Withheld"@, "expense"@, Some("fica"@)),
    ]
}

/// The demo companies, in creation order.
pub open spec fn demo_company_list() -> Seq<(Seq<char>, Seq<char>, Seq<char>)> {
    seq![
        ("acme-consulting"@, "Acme Consulting LLC"@, "Demo consulting firm"@),
        ("acme-products"@, "Acme Products Inc"@, "Demo product company"@),
        ("personal"@, "Personal"@, "Owner personal finances"@),
    ]
}

/// A demo company.
fn company(slug: &str, name: &str, description: &str) -> (c: DemoCompany)
    ensures
        c.slug@ == slug@,
        c.name@ == name@,
        c.description@ == description@,
{
    DemoCompany { slug: slug.to_string(), name: name.to_string(), description: description.to_string() }
}

/// An account of a demo chart.
fn account(code: &str, name: &str, account_type: &str, tax: Option<&str>) -> (a: DemoAccount)
    ensures
        a.code@ == code@,
        a.name@ == name@,
        a.account_type@ == account_type@,
        opt_string_view(a.tax_category) == (match tax {
            Some(t) => Some(t@),
            None => None::<Seq<char>>,
        }),
{
    DemoAccount {
        code: code.to_string(),
        name: name.to_string(),
        account_type: account_type.to_string(),
        tax_category: match tax {
            Some(t) => Some(t.to_string()),
            None => None,
        },
    }
}

/// The three demo companies.
pub fn demo_companies() -> (r: Vec<DemoCompany>)
    ensures
        r@.map_values(|c: DemoCompany| (c.slug@, c.name@, c.description@)) == demo_company_list(),
{
    let r = vec![
        company("acme-consulting", "Acme Consulting LLC", "Demo consulting firm"),
        company("acme-products", "Acme Products Inc", "Demo product company"),
        company("personal", "Personal", "Owner personal finances"),
    ];
    assert(r@.map_values(|c: DemoCompany| (c.slug@, c.name@, c.description@)) =~= demo_company_list());
    r
}

/// The chart of accounts of acme-consulting.
pub fn consulting_accounts() -> (r: Vec<DemoAccount>)
    ensures
        accounts_view(r@) == consulting_chart(),
        r@.len() == 14,
{
    let r = vec![
        account("1000", "Operating Cash", "asset", None),
        account("1100", "Accounts Receivable", "asset", None),
        account("1500", "Due from Acme Products", "asset", None),
        account("2000", "Accounts Payable", "liability", None),
        account("2500", "Due to Owner", "liability", None),
        account("3000", "Owner Equity", "equity", None),
        account("4000", "Consulting Revenue", "revenue", Some("income")),
        account("5000", "Rent Expense", "expense", Some("rent")),
        account("5100", "Software Licences", "expense", Some("software")),
        account("5200", "Office Supplies", "expense", Some("supplies")),
        account("5300", "Salary Expense", "expense", Some("payroll")),
        account("2600", "Federal Tax Payable", "liability", Some("payroll-tax")),
        account("2700", "State Tax Payable", "liability", Some("payroll-tax")),
        account("2800", "FICA Payable", "liability", Some("payroll-tax")),
    ];
    assert(accounts_view(r@) =~= consulting_chart());
    r
}

/// The chart of accounts of acme-products.
pub fn products_accounts() -> (r: Vec<DemoAccount>)
    ensures
        accounts_view(r@) == products_chart(),
        r@.len() == 10,
{
    let r = vec![
        account("1000", "Operating Cash", "asset", None),
        account("1100", "Accounts Receivable", "asset", None),
        account("1200", "Inventory", "asset", None),
        account("1500", "Due from Acme Consulting", "asset", None),
        account("2000", "Accounts Payable", "liability", None),
        account("3000", "Owner Equity", "equity", None),
        account("4000", "Product Sales", "revenue", Some("income")),
        account("4100", "Licence Revenue", "revenue", Some("income")),
        account("5000", "Cost of Goods Sold", "expense", Some("cogs")),
        account("5100", "Shipping Expense", "expense", Some("shipping")),
    ];
    assert(accounts_view(r@) =~= products_chart());
    r
}

/// The chart of accounts of the personal books.
pub fn personal_accounts() -> (r: Vec<DemoAccount>)
    ensures
        accounts_view(r@) == personal_chart(),
        r@.len() == 13,
{
    let r = vec![
        account("1000", "Checking Account", "asset", None),
        account("1100", "Savings Account", "asset", None),
        account("1500", "Due from Acme Consulting", "asset", None),
        account("2000", "Credit Card", "liability", None),
        account("3000", "Net Worth", "equity", None),
        account("4000", "Salary Income", "revenue", Some("w2-income")),
        account("4100", "Investment Income", "revenue", Some("investment")),
        account("5000", "Rent", "expense", Some("housing")),
        account("5100", "Groceries", "expense", Some("food")),
        account("5200", "Utilities", "expense", Some("utilities")),
        account("5300", "Federal Tax Withheld", "expense", Some("fed-tax")),
        account("5400", "State Tax Withheld", "expense", Some("state-tax")),
        account("5500", "FICA Withheld", "expense", Some("fica")),
    ];
    assert(accounts_view(r@) =~= personal_chart());
    r
}

/// The regular demo transactions of acme-consulting.
pub fn consulting_transactions() -> (r: Vec<DemoTransaction>)
    ensures
        demos_view(r@) == consulting_demo(),
        r@.len() == 7,
        forall|i: int| 0 <= i < r@.len() ==> (#[trigger] r@[i]).company@ == "acme-consulting"@ && balances(r@[i].entries@),
{
    let mut v: Vec<DemoTransaction> = Vec::new();
    {
        let d = dr("1000", 2_500_000);
        let c = cr("3000", 2_500_000);
        proof {
            lemma_pair_balances(d, c);
        }
        v.push(demo("acme-consulting", "Owner capital contribution", "2025-01-01", pair(d, c), "AC-001"));
    }
    {
        let d = dr_tax("5000", 250_000, "rent");
        let c = cr("1000", 250_000);
        proof {
            lemma_pair_balances(d, c);
        }
        v.push(demo("acme-consulting", "January office rent", "2025-01-05", pair(d, c), "AC-002"));
    }
    {
        let d = dr("1100", 1_200_000);
        let c = cr_tax("4000", 1_200_000, "income");
        proof {
            lemma_pair_balances(d, c);
        }
        v.push(demo("acme-consulting", "Invoice #101 - Globex Corp", "2025-01-15", pair(d, c), "AC-003"));
    }
    {
        let d = dr("1000", 1_200_000);
        let c = cr("1100", 1_200_000);
        proof {
            lemma_pair_balances(d, c);
        }
        v.push(demo("acme-consulting", "Payment from Globex Corp", "2025-01-28", pair(d, c), "AC-004"));
    }
    {
        let d = dr_tax("5200", 27_500, "supplies");
        let c = cr("1000", 27_500);
        proof {
            lemma_pair_balances(d, c);
        }
        v.push(demo("acme-consulting", "Office supplies - paper and toner", "2025-02-03", pair(d, c), "AC-005"));
    }
    {
        let d = dr("1100", 850_000);
        let c = cr_tax("4000", 850_000, "income");
        proof {
            lemma_pair_balances(d, c);
        }
        v.push(demo("acme-consulting", "Invoice #102 - Initech", "2025-02-15", pair(d, c), "AC-006"));
    }
    {
        let d = dr_tax("5000", 250_000, "rent");
        let c = cr("1000", 250_000);
        proof {
            lemma_pair_balances(d, c);
        }
        v.push(demo("acme-consulting", "February office rent", "2025-02-05", pair(d, c), "AC-007"));
    }
    assert(demos_view(v@) =~= consulting_demo());
    v
}

/// The regular demo transactions of acme-products.
pub fn products_transactions() -> (r: Vec<DemoTransaction>)
    ensures
        demos_view(r@) == products_demo(),
        r@.len() == 6,
        forall|i: int| 0 <= i < r@.len() ==> (#[trigger] r@[i]).company@ == "acme-products"@ && balances(r@[i].entries@),
{
    let mut v: Vec<DemoTransaction> = Vec::new();
    {
        let d = dr("1000", 1_500_000);
        let c = cr("3000", 1_500_000);
        proof {
            lemma_pair_balances(d, c);
        }
        v.push(demo("acme-products", "Owner capital contribution", "2025-01-01", pair(d, c), "AP-001"));
    }
    {
        let d = dr_memo("1200", 500_000, "500 widgets @ $10");
        let c = cr("1000", 500_000);
        proof {
            lemma_pair_balances(d, c);
        }
        v.push(demo("acme-products", "Initial widget inventory (500 units)", "2025-01-08", pair(d, c), "AP-002"));
    }
    {
        let d = dr("1100", 250_000);
        let c = cr_tax("4000", 250_000, "income");
        proof {
            lemma_pair_balances(d, c);
        }
        v.push(demo("acme-products", "Widget sale - 100 units", "2025-01-20", pair(d, c), "AP-003"));
    }
    {
        let d = dr_tax("5000", 100_000, "cogs");
        let c = cr("1200", 100_000);
        proof {
            lemma_pair_balances(d, c);
        }
        v.push(demo("acme-products", "COGS - 100 widgets sold", "2025-01-20", pair(d, c), "AP-004"));
    }
    {
        let d = dr("1000", 250_000);
        let c = cr("1100", 250_000);
        proof {
            lemma_pair_balances(d, c);
        }
        v.push(demo("acme-products", "Payment received - widget sale", "2025-02-01", pair(d, c), "AP-005"));
    }
    {
        let d = dr_tax("5100", 35_000, "shipping");
        let c = cr("1000", 35_000);
        proof {
            lemma_pair_balances(d, c);
        }
        v.push(demo("acme-products", "Shipping costs - January", "2025-01-31", pair(d, c), "AP-006"));
    }
    assert(demos_view(v@) =~= products_demo());
    v
}

/// The regular demo transactions of the personal books.
pub fn personal_transactions() -> (r: Vec<DemoTransaction>)
    ensures
        demos_view(r@) == personal_demo(),
        r@.len() == 7,
        forall|i: int| 0 <= i < r@.len() ==> (#[trigger] r@[i]).company@ == "personal"@ && balances(r@[i].entries@),
{
    let mut v: Vec<DemoTransaction> = Vec::new();
    {
        let d = dr("1100", 5_000_000);
        let c = cr("3000", 5_000_000);
        proof {
            lemma_pair_balances(d, c);
        }
        v.push(demo("personal", "Opening balance - savings", "2025-01-01", pair(d, c), "PR-001"));
    }
    {
        let d = dr("1000", 500_000);
        let c = cr("3000", 500_000);
        proof {
            lemma_pair_balances(d, c);
        }
        v.push(demo("personal", "Opening balance - checking", "2025-01-01", pair(d, c), "PR-002"));
    }
    {
        let d = dr_tax("5000", 180_000, "housing");
        let c = cr("1000", 180_000);
        proof {
            lemma_pair_balances(d, c);
        }
        v.push(demo("personal", "January apartment rent", "2025-01-03", pair(d, c), "PR-003"));
    }
    {
        let d = dr_tax("5100", 18_550, "food");
        let c = cr("2000", 18_550);
        proof {
            lemma_pair_balances(d, c);
        }
        v.push(demo("personal", "Weekly groceries", "2025-01-07", pair(d, c), "PR-004"));
    }
    {
        let d = dr_tax("5200", 21_000, "utilities");
        let c = cr("1000", 21_000);
        proof {
            lemma_pair_balances(d, c);
        }
        v.push(demo("personal", "Electric and internet", "2025-01-15", pair(d, c), "PR-005"));
    }
    {
        let d = dr_tax("5000", 180_000, "housing");
        let c = cr("1000", 180_000);
        proof {
            lemma_pair_balances(d, c);
        }
        v.push(demo("personal", "February apartment rent", "2025-02-03", pair(d, c), "PR-006"));
    }
    {
        let d = dr("1100", 32_000);
        let c = cr_tax("4100", 32_000, "investment");
        proof {
            lemma_pair_balances(d, c);
        }
        v.push(demo("personal", "Quarterly dividend - index fund", "2025-01-31", pair(d, c), "PR-007"));
    }
    assert(demos_view(v@) =~= personal_demo());
    v
}

/// The payroll split: one debit of the gross salary against credits of
/// the three withholdings and the net pay, which add up to it.
proof fn lemma_payroll_balances(es: Seq<PostEntryParams>)
    requires
        es.len() == 5,
        es[0].direction@ == "debit"@,
        es[0].amount == 500_000,
        es[1].direction@ == "credit"@,
        es[1].amount == 60_000,
        es[2].direction@ == "credit"@,
        es[2].amount == 25_000,
        es[3].direction@ == "credit"@,
        es[3].amount == 38_250,
        es[4].direction@ == "credit"@,
        es[4].amount == 376_750,
    ensures
        balances(es),
{
    lemma_debit_not_credit();
    let s1 = seq![es[0]];
    let s2 = es.subrange(0, 2);
    let s3 = es.subrange(0, 3);
    let s4 = es.subrange(0, 4);
    assert(s1.drop_last() =~= Seq::<PostEntryParams>::empty());
    assert(s2.drop_last() =~= s1);
    assert(s3.drop_last() =~= s2);
    assert(s4.drop_last() =~= s3);
    assert(es.drop_last() =~= s4);
    assert(s2.last() == es[1]);
    assert(s3.last() == es[2]);
    assert(s4.last() == es[3]);
    assert(debit_sum(Seq::<PostEntryParams>::empty()) == 0);
    assert(credit_sum(Seq::<PostEntryParams>::empty()) == 0);
    assert(s1.last() == es[0]);
    assert(debit_sum(s1) == es[0].amount);
    assert(credit_sum(s1) == 0);
    assert(debit_sum(s2) == 500_000 && credit_sum(s2) == 60_000);
    assert(debit_sum(s3) == 500_000 && credit_sum(s3) == 85_000);
    assert(debit_sum(s4) == 500_000 && credit_sum(s4) == 123_250);
    assert(debit_sum(es) == 500_000 && credit_sum(es) == 500_000);
    assert(well_formed_entries(es)) by {
        assert forall|i: int| 0 <= i < es.len() implies (#[trigger] es[i]).amount > 0 && (
        es[i].direction@ == "debit"@ || es[i].direction@ == "credit"@) by {
            assert(0 <= i <= 4);
        }
    }
}

/// The paycheck split: debits of the net pay and the three withholdings
/// against one credit of the gross salary, which they add up to.
proof fn lemma_paycheck_balances(es: Seq<PostEntryParams>)
    requires
        es.len() == 5,
        es[0].direction@ == "debit"@,
        es[0].amount == 376_750,
        es[1].direction@ == "debit"@,
        es[1].amount == 60_000,
        es[2].direction@ == "debit"@,
        es[2].amount == 25_000,
        es[3].direction@ == "debit"@,
        es[3].amount == 38_250,
        es[4].direction@ == "credit"@,
        es[4].amount == 500_000,
    ensures
        balances(es),
{
    lemma_debit_not_credit();
    let s1 = seq![es[0]];
    let s2 = es.subrange(0, 2);
    let s3 = es.subrange(0, 3);
    let s4 = es.subrange(0, 4);
    assert(s1.drop_last() =~= Seq::<PostEntryParams>::empty());
    assert(s2.drop_last() =~= s1);
    assert(s3.drop_last() =~= s2);
    assert(s4.drop_last() =~= s3);
    assert(es.drop_last() =~= s4);
    assert(s2.last() == es[1]);
    assert(s3.last() == es[2]);
    assert(s4.last() == es[3]);
    assert(debit_sum(Seq::<PostEntryParams>::empty()) == 0);
    assert(credit_sum(Seq::<PostEntryParams>::empty()) == 0);
    assert(s1.last() == es[0]);
    assert(debit_sum(s1) == es[0].amount);
    assert(credit_sum(s1) == 0);
    assert(debit_sum(s2) == 436_750 && credit_sum(s2) == 0);
    assert(debit_sum(s3) == 461_750 && credit_sum(s3) == 0);
    assert(debit_sum(s4) == 500_000 && credit_sum(s4) == 0);
    assert(debit_sum(es) == 500_000 && credit_sum(es) == 500_000);
    assert(well_formed_entries(es)) by {
        assert forall|i: int| 0 <= i < es.len() implies (#[trigger] es[i]).amount > 0 && (
        es[i].direction@ == "debit"@ || es[i].direction@ == "credit"@) by {
            assert(0 <= i <= 4);
        }
    }
}

/// The intercompany demo pairs: each first transaction is posted as it is,
/// and the second refers to the id the first was given. Both halves of
/// every pair balance.
pub fn intercompany_pairs() -> (r: Vec<(DemoTransaction, DemoTransaction)>)
    ensures
        r@.map_values(|p: (DemoTransaction, DemoTransaction)| (demo_view(p.0), demo_view(p.1)))
            == intercompany_demo(),
        r@.len() == 4,
        forall|i: int|
            0 <= i < r@.len() ==> balances((#[trigger] r@[i]).0.entries@) && balances(
                r@[i].1.entries@,
            ),
{
    let mut v: Vec<(DemoTransaction, DemoTransaction)> = Vec::new();
    {
        let d1 = dr("1500", 500_000);
        let c1 = cr("1100", 500_000);
        let d2 = dr("1000", 500_000);
        let c2 = cr("2500", 500_000);
        proof {
            lemma_pair_balances(d1, c1);
            lemma_pair_balances(d2, c2);
        }
        v.push(
            (
                demo("personal", "Loan to Acme Consulting", "2025-01-02", pair(d1, c1), "IC-001-P"),
                demo(
                    "acme-consulting",
                    "Loan from owner (personal)",
                    "2025-01-02",
                    pair(d2, c2),
                    "IC-001-C",
                ),
            ),
        );
    }
    {
        let d1 = dr_tax("5100", 360_000, "software");
        let c1 = cr("2000", 360_000);
        let d2 = dr("1500", 360_000);
        let c2 = cr_tax("4100", 360_000, "income");
        proof {
            lemma_pair_balances(d1, c1);
            lemma_pair_balances(d2, c2);
        }
        v.push(
            (
                demo(
                    "acme-consulting",
                    "Software licences from Acme Products",
                    "2025-02-01",
                    pair(d1, c1),
                    "IC-002-C",
                ),
                demo(
                    "acme-products",
                    "Licence sale to Acme Consulting",
                    "2025-02-01",
                    pair(d2, c2),
                    "IC-002-P",
                ),
            ),
        );
    }
    {
        let payroll = vec![
            dr_tax("5300", 500_000, "payroll"),
            cr_tax("2600", 60_000, "payroll-tax"),
            cr_tax("2700", 25_000, "payroll-tax"),
            cr_tax("2800", 38_250, "payroll-tax"),
            cr("1000", 376_750),
        ];
        let paycheck = vec![
            dr("1000", 376_750),
            dr_tax("5300", 60_000, "fed-tax"),
            dr_tax("5400", 25_000, "state-tax"),
            dr_tax("5500", 38_250, "fica"),
            cr_tax("4000", 500_000, "w2-income"),
        ];
        proof {
            lemma_payroll_balances(payroll@);
            lemma_paycheck_balances(paycheck@);
        }
        assert(entries_view(payroll@) =~= seq![
            sd_tax("5300"@, 500_000, "payroll"@),
            sc_tax("2600"@, 60_000, "payroll-tax"@),
            sc_tax("2700"@, 25_000, "payroll-tax"@),
            sc_tax("2800"@, 38_250, "payroll-tax"@),
            sc("1000"@, 376_750),
        ]);
        assert(entries_view(paycheck@) =~= seq![
            sd("1000"@, 376_750),
            sd_tax("5300"@, 60_000, "fed-tax"@),
            sd_tax("5400"@, 25_000, "state-tax"@),
            sd_tax("5500"@, 38_250, "fica"@),
            sc_tax("4000"@, 500_000, "w2-income"@),
        ]);
        v.push(
            (
                demo(
                    "acme-consulting",
                    "February payroll - owner salary",
                    "2025-02-15",
                    payroll,
                    "IC-003-C",
                ),
                demo(
                    "personal",
                    "February paycheck from Acme Consulting",
                    "2025-02-15",
                    paycheck,
                    "IC-003-P",
                ),
            ),
        );
    }
    {
        let d1 = dr("2000", 360_000);
        let c1 = cr("1000", 360_000);
        let d2 = dr("1000", 360_000);
        let c2 = cr("1500", 360_000);
        proof {
            lemma_pair_balances(d1, c1);
            lemma_pair_balances(d2, c2);
        }
        v.push(
            (
                demo(
                    "acme-consulting",
                    "Payment to Acme Products - licence invoice",
                    "2025-02-20",
                    pair(d1, c1),
                    "IC-004-C",
                ),
                demo(
                    "acme-products",
                    "Payment from Acme Consulting",
                    "2025-02-20",
                    pair(d2, c2),
                    "IC-004-P",
                ),
            ),
        );
    }
    assert(v@.map_values(|p: (DemoTransaction, DemoTransaction)| (demo_view(p.0), demo_view(p.1)))
        =~= intercompany_demo());
    v
}

} // verus!
