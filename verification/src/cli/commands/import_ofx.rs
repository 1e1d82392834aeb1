//! OFX bank statement import: reading a document's statements through
//! `ofx_rs`, converting their amounts to minor units, and the steps from
//! statement fields to the descriptions, references, entries and summaries
//! of posted transactions.
use vstd::prelude::*;
use ofx_rs::aggregates::{
    CcStatementResponse, InvStatementResponse, StatementResponse, StatementTransaction, TransactionList,
};
use crate::cli::error::CliError;
use crate::cli::ImportFormat;
use crate::cli::db::PostEntryParams;
use crate::cli::db::transactions::{conflict_outcome, is_conflict_outcome};
use crate::cli::db::{ConflictStrategy, PostResult};
use crate::cli::db::audit::opt_string_view;
use crate::text::{
    ascii_lower_seq, i128_to_string, int_decimal, lemma_pow10_38, lemma_pow10_add, lemma_pow10_monotone,
    lemma_pow10_pos, padded_digits, pow10, pow10_u128, push_padded_digits, to_ascii_lowercase,
    trim, trim_text,
};
use crate::types::currency::{currency_code_text, currency_named, Currency};

verus! {

/// OFX import-specific errors.
#[derive(Debug, Clone, PartialEq, Eq)]
pub enum OfxImportError {
    /// The OFX file could not be parsed.
    ParseFailed {
        /// The parser's message.
        message: String,
    },
    /// The `--account` flag is required for OFX import but was not provided.
    MissingAccountFlag,
    /// The `--suspense` flag is required for OFX import but was not provided.
    MissingSuspenseFlag,
    /// The specified account code does not exist.
    AccountNotFound {
        /// The missing account code.
        code: String,
    },
    /// The OFX statement currency is not recognized.
    UnsupportedCurrency {
        /// The statement's currency code.
        code: String,
    },
    /// An OFX amount could not be converted to minor units.
    AmountConversion {
        /// The transaction's financial institution id.
        fit_id: String,
        /// What went wrong.
        detail: String,
    },
    /// Format auto-detection failed.
    CannotDetectFormat {
        /// The file path whose extension was not recognized.
        path: String,
    },
}

/// The message of an OFX import error.
pub open spec fn ofx_error_text(e: OfxImportError) -> Seq<char> {
    match e {
        OfxImportError::ParseFailed { message } => "OFX parse failed: "@ + message@,
        OfxImportError::MissingAccountFlag => "--account is required for OFX import; specify the bank account code"@,
        OfxImportError::MissingSuspenseFlag => "--suspense is required for OFX import; specify the contra/clearing account code"@,
        OfxImportError::AccountNotFound { code } => "account '"@ + code@
            + "' not found; create it first with 'bk account create'"@,
        OfxImportError::UnsupportedCurrency { code } => "OFX statement currency '"@ + code@
            + "' is not supported by beankeeper"@,
        OfxImportError::AmountConversion { fit_id, detail } => "amount conversion failed for transaction '"@
            + fit_id@ + "': "@ + detail@,
        OfxImportError::CannotDetectFormat { path } => "cannot detect import format from file '"@
            + path@ + "'; specify --format explicitly"@,
    }
}

/// Appends `s` to `out`.
fn push_str(out: &mut String, s: &str)
    ensures
        final(out)@ == old(out)@ + s@,
{
    out.append(s);
}

impl OfxImportError {
    /// The human-readable message.
    pub fn to_string(&self) -> (s: String)
        ensures
            s@ == ofx_error_text(*self),
    {
        match self {
            OfxImportError::ParseFailed { message } => {
                let mut s = "OFX parse failed: ".to_string();
                push_str(&mut s, message.as_str());
                s
            },
            OfxImportError::MissingAccountFlag => "--account is required for OFX import; specify the bank account code".to_string(),
            OfxImportError::MissingSuspenseFlag => "--suspense is required for OFX import; specify the contra/clearing account code".to_string(),
            OfxImportError::AccountNotFound { code } => {
                let mut s = "account '".to_string();
                push_str(&mut s, code.as_str());
                push_str(&mut s, "' not found; create it first with 'bk account create'");
                s
            },
            OfxImportError::UnsupportedCurrency { code } => {
                let mut s = "OFX statement currency '".to_string();
                push_str(&mut s, code.as_str());
                push_str(&mut s, "' is not supported by beankeeper");
                s
            },
            OfxImportError::AmountConversion { fit_id, detail } => {
                let mut s = "amount conversion failed for transaction '".to_string();
                push_str(&mut s, fit_id.as_str());
                push_str(&mut s, "': ");
                push_str(&mut s, detail.as_str());
                s
            },
            OfxImportError::CannotDetectFormat { path } => {
                let mut s = "cannot detect import format from file '".to_string();
                push_str(&mut s, path.as_str());
                push_str(&mut s, "'; specify --format explicitly");
                s
            },
        }
    }
}

impl vstd::std_specs::convert::FromSpecImpl<OfxImportError> for CliError {
    open spec fn obeys_from_spec() -> bool {
        false
    }

    open spec fn from_spec(v: OfxImportError) -> CliError {
        arbitrary()
    }
}

impl From<OfxImportError> for CliError {
    /// Missing flags and undetectable formats are usage errors, a missing
    /// account is not-found, and the rest are validation errors; each
    /// carries the import error's message.
    fn from(e: OfxImportError) -> (r: CliError)
        ensures
            match e {
                OfxImportError::MissingAccountFlag | OfxImportError::MissingSuspenseFlag
                | OfxImportError::CannotDetectFormat { .. } => r matches CliError::Usage(m) && m@
                    == ofx_error_text(e),
                OfxImportError::AccountNotFound { .. } => r matches CliError::NotFound(m) && m@
                    == ofx_error_text(e),
                _ => r matches CliError::Validation(m) && m@ == ofx_error_text(e),
            },
    {
        let msg = e.to_string();
        match e {
            OfxImportError::MissingAccountFlag | OfxImportError::MissingSuspenseFlag
            | OfxImportError::CannotDetectFormat { .. } => CliError::Usage(msg),
            OfxImportError::AccountNotFound { .. } => CliError::NotFound(msg),
            _ => CliError::Validation(msg),
        }
    }
}

/// Outcome of an OFX import operation.
#[derive(Debug, Clone, PartialEq, Eq)]
pub struct ImportResult {
    /// The transactions posted (or that would be posted in a dry run).
    pub imported: Vec<ImportedTransaction>,
    /// The transactions skipped as duplicates.
    pub skipped: Vec<SkippedTransaction>,
    /// The transactions that failed.
    pub errors: Vec<FailedTransaction>,
}

/// A successfully posted transaction.
#[derive(Debug, Clone, PartialEq, Eq)]
pub struct ImportedTransaction {
    /// The new transaction's id (0 in a dry run).
    pub id: i64,
    /// The posting date, `YYYY-MM-DD`.
    pub date: String,
    /// The description.
    pub description: String,
    /// The amount in minor units.
    pub amount_minor: i64,
    /// Whether money came into the bank account.
    pub is_inflow: bool,
}

/// A transaction skipped because its reference was already posted.
#[derive(Debug, Clone, PartialEq, Eq)]
pub struct SkippedTransaction {
    /// The posting date, `YYYY-MM-DD`.
    pub date: String,
    /// The description.
    pub description: String,
    /// The amount in minor units.
    pub amount_minor: i64,
    /// The duplicate reference.
    pub reference: String,
}

/// A transaction that failed to post.
#[derive(Debug, Clone, PartialEq, Eq)]
pub struct FailedTransaction {
    /// The posting date, `YYYY-MM-DD`.
    pub date: String,
    /// The description.
    pub description: String,
    /// The amount in minor units.
    pub amount_minor: i64,
    /// The error message.
    pub error: String,
}

/// The trimmed text of an optional field, when it is not empty.
pub open spec fn present_text(s: Option<Seq<char>>) -> Option<Seq<char>> {
    match s {
        Some(t) => if trim_text(t).len() > 0 {
            Some(trim_text(t))
        } else {
            None
        },
        None => None,
    }
}

/// The view of an optional string slice.
pub open spec fn opt_view(s: Option<&str>) -> Option<Seq<char>> {
    match s {
        Some(t) => Some(t@),
        None => None,
    }
}

/// The trimmed text of an optional field, when it is not empty.
fn present(s: Option<&str>) -> (r: Option<&str>)
    ensures
        opt_view(r) == present_text(opt_view(s)),
{
    match s {
        Some(t) => {
            let u = trim(t);
            if u.unicode_len() > 0 {
                Some(u)
            } else {
                None
            }
        },
        None => None,
    }
}

/// The description of an OFX transaction: name and memo (trimmed, empty
/// ones left out) joined by ` - `, or `OFX transaction <fit_id>` when both
/// are missing.
pub open spec fn description_text(name: Option<Seq<char>>, memo: Option<Seq<char>>, fit_id: Seq<char>) -> Seq<char> {
    match (present_text(name), present_text(memo)) {
        (Some(n), Some(m)) => n + " - "@ + m,
        (Some(n), None) => n,
        (None, Some(m)) => m,
        (None, None) => "OFX transaction "@ + fit_id,
    }
}

/// Assembles a transaction description from OFX name and memo fields.
pub fn build_description(name: Option<&str>, memo: Option<&str>, fit_id: &str) -> (s: String)
    ensures
        s@ == description_text(opt_view(name), opt_view(memo), fit_id@),
{
    let n = present(name);
    let m = present(memo);
    match (n, m) {
        (Some(a), Some(b)) => {
            let mut s = a.to_owned();
            push_str(&mut s, " - ");
            push_str(&mut s, b);
            s
        },
        (Some(a), None) => a.to_owned(),
        (None, Some(b)) => b.to_owned(),
        (None, None) => {
            let mut s = "OFX transaction ".to_string();
            push_str(&mut s, fit_id);
            s
        },
    }
}

/// Builds the deduplication reference of an OFX transaction:
/// `ofx:<account_id>:<fit_id>`.
pub fn build_ofx_reference(account_id: &str, fit_id: &str) -> (s: String)
    ensures
        s@ == "ofx:"@ + account_id@ + ":"@ + fit_id@,
{
    let mut s = "ofx:".to_string();
    push_str(&mut s, account_id);
    push_str(&mut s, ":");
    push_str(&mut s, fit_id);
    s
}

/// Builds the metadata JSON of an OFX transaction type:
/// `{"ofx_type":"<type>"}`.
pub fn build_metadata_json(ofx_type: &str) -> (s: String)
    ensures
        s@ == "{\"ofx_type\":\""@ + ofx_type@ + "\"}"@,
{
    let mut s = "{\"ofx_type\":\"".to_string();
    push_str(&mut s, ofx_type);
    push_str(&mut s, "\"}");
    s
}

/// The extension of a path (`std::path::Path::extension`).
pub uninterp spec fn path_extension_text(path: Seq<char>) -> Option<Seq<char>>;

/// The extension of a path as `std::path::Path::extension` finds it, when
/// it is valid UTF-8.
#[verifier::external_body]
fn path_extension(path: &str) -> (r: Option<String>)
    ensures
        match r {
            Some(e) => path_extension_text(path@) == Some(e@),
            None => path_extension_text(path@) is None,
        },
{
    std::path::Path::new(path).extension().and_then(|e| e.to_str()).map(|e| e.to_owned())
}

/// The import format an extension names, ignoring case: `ofx` or `qfx`,
/// `csv`, `json`.
pub open spec fn format_of_extension(ext: Seq<char>) -> Option<ImportFormat> {
    let e = ascii_lower_seq(ext);
    if e == "ofx"@ || e == "qfx"@ {
        Some(ImportFormat::Ofx)
    } else if e == "csv"@ {
        Some(ImportFormat::Csv)
    } else if e == "json"@ {
        Some(ImportFormat::Json)
    } else {
        None
    }
}

/// The import format for a file with extension `ext`, or
/// `CannotDetectFormat` naming `path`.
pub fn format_from_extension(ext: Option<&str>, path: &str) -> (r: Result<ImportFormat, OfxImportError>)
    ensures
        match ext {
            Some(e) => match format_of_extension(e@) {
                Some(f) => r == Ok::<ImportFormat, OfxImportError>(f),
                None => r matches Err(OfxImportError::CannotDetectFormat { path: p }) && p@ == path@,
            },
            None => r matches Err(OfxImportError::CannotDetectFormat { path: p }) && p@ == path@,
        },
{
    if let Some(e) = ext {
        let lower = to_ascii_lowercase(e);
        let l = lower.as_str();
        proof {
            reveal_strlit("ofx");
            reveal_strlit("qfx");
            reveal_strlit("csv");
            reveal_strlit("json");
        }
        if crate::text::str_eq(l, "ofx") || crate::text::str_eq(l, "qfx") {
            return Ok(ImportFormat::Ofx);
        } else if crate::text::str_eq(l, "csv") {
            return Ok(ImportFormat::Csv);
        } else if crate::text::str_eq(l, "json") {
            return Ok(ImportFormat::Json);
        }
    }
    Err(OfxImportError::CannotDetectFormat { path: path.to_owned() })
}

/// Detects the import format from a file's extension, ignoring case.
pub fn detect_format(path: &str) -> (r: Result<ImportFormat, OfxImportError>)
    ensures
        match path_extension_text(path@) {
            Some(e) => match format_of_extension(e) {
                Some(f) => r == Ok::<ImportFormat, OfxImportError>(f),
                None => r matches Err(OfxImportError::CannotDetectFormat { path: p }) && p@ == path@,
            },
            None => r matches Err(OfxImportError::CannotDetectFormat { path: p }) && p@ == path@,
        },
{
    let ext = path_extension(path);
    match &ext {
        Some(e) => format_from_extension(Some(e.as_str()), path),
        None => format_from_extension(None, path),
    }
}

/// Validates a statement's currency code: the code and its minor units, or
/// `UnsupportedCurrency`.
pub fn validate_currency(code: &str) -> (r: Result<(String, u8), OfxImportError>)
    ensures
        match r {
            Ok((c, m)) => currency_named(code@) matches Some(cur) && c@ == currency_code_text(cur)
                && m == cur.spec_minor_units(),
            Err(e) => currency_named(code@) is None && (e matches OfxImportError::UnsupportedCurrency {
                code: c,
            } && c@ == code@),
        },
{
    match Currency::from_code(code) {
        Ok(currency) => Ok((currency.code().to_owned(), currency.minor_units())),
        Err(_) => Err(OfxImportError::UnsupportedCurrency { code: code.to_owned() }),
    }
}

/// The one-line summary of an import: how many transactions were (or
/// would be) imported, skipped as duplicates and failed.
pub open spec fn summary_text(imported: nat, skipped: nat, errors: nat, dry_run: bool) -> Seq<char> {
    (if dry_run {
        "Would import "@
    } else {
        "Imported "@
    }) + int_decimal(imported as int) + " transaction"@ + (if imported != 1 {
        "s"@
    } else {
        Seq::<char>::empty()
    }) + (if skipped > 0 {
        ", skipped "@ + int_decimal(skipped as int) + " duplicate"@ + if skipped != 1 {
            "s"@
        } else {
            Seq::<char>::empty()
        }
    } else {
        Seq::<char>::empty()
    }) + (if errors > 0 {
        ", "@ + int_decimal(errors as int) + " error"@ + if errors != 1 {
            "s"@
        } else {
            Seq::<char>::empty()
        }
    } else {
        Seq::<char>::empty()
    }) + "."@
}

/// The one-line summary of an import, such as
/// `Imported 3 transactions, skipped 1 duplicate.`
pub fn import_summary(result: &ImportResult, dry_run: bool) -> (s: String)
    ensures
        s@ == summary_text(
            result.imported@.len(),
            result.skipped@.len(),
            result.errors@.len(),
            dry_run,
        ),
{
    let imported = result.imported.len();
    let skipped = result.skipped.len();
    let errors = result.errors.len();
    let mut s = if dry_run {
        "Would import ".to_string()
    } else {
        "Imported ".to_string()
    };
    let n = i128_to_string(imported as i128);
    push_str(&mut s, n.as_str());
    push_str(&mut s, " transaction");
    if imported != 1 {
        push_str(&mut s, "s");
    }
    let ghost head = s@;
    let mut tail = String::new();
    if skipped > 0 {
        push_str(&mut tail, ", skipped ");
        let k = i128_to_string(skipped as i128);
        push_str(&mut tail, k.as_str());
        push_str(&mut tail, " duplicate");
        if skipped != 1 {
            push_str(&mut tail, "s");
        }
    }
    let ghost mid = tail@;
    let mut last = String::new();
    if errors > 0 {
        push_str(&mut last, ", ");
        let e = i128_to_string(errors as i128);
        push_str(&mut last, e.as_str());
        push_str(&mut last, " error");
        if errors != 1 {
            push_str(&mut last, "s");
        }
    }
    push_str(&mut last, ".");
    push_str(&mut s, tail.as_str());
    push_str(&mut s, last.as_str());
    assert(s@ =~= head + mid + last@);
    s
}

/// An OFX amount as plain values: the amount is `mantissa / 10^scale`, and
/// `text` is how it is written in messages.
#[derive(Debug, Clone)]
pub struct OfxAmount {
    /// The signed integer mantissa.
    pub mantissa: i128,
    /// The number of decimal places.
    pub scale: u32,
    /// The amount as written, such as `-50.00`.
    pub text: String,
}

/// The absolute value of an amount of `|m| / 10^s` scaled to `k` minor-unit
/// places: `None` when that leaves a fractional part.
pub open spec fn scaled_reading(m: int, s: nat, k: nat) -> Option<int> {
    let a = if m < 0 {
        -m
    } else {
        m
    };
    let num: int = a * pow10(k);
    if num % (pow10(s) as int) != 0 {
        None
    } else {
        Some(num / (pow10(s) as int))
    }
}

/// Whether `r` is the amount-conversion error of transaction `fit_id` with
/// the given detail.
pub open spec fn is_conversion_error<T>(r: Result<T, OfxImportError>, fit_id: Seq<char>, detail: Seq<char>) -> bool {
    r matches Err(OfxImportError::AmountConversion { fit_id: f, detail: d }) && f@ == fit_id
        && d@ == detail
}

/// What is wrong with an amount `m / 10^s` (written `text`) that does not
/// convert to `k` minor-unit places: a fractional part, or a value beyond
/// `i64`.
pub open spec fn conversion_detail(m: int, s: nat, k: nat, text: Seq<char>) -> Seq<char> {
    match scaled_reading(m, s, k) {
        None => "amount "@ + text + " has more decimal places than the currency allows ("@
            + int_decimal(k as int) + ")"@,
        Some(_) => "amount "@ + text + " exceeds i64 range"@,
    }
}

/// Scaling `a` by `10^k` and dividing by `10^s` when `s >= k` is dividing
/// `a` by `10^(s - k)`.
proof fn lemma_scale_down(a: int, s: nat, k: nat)
    requires
        a >= 0,
        s >= k,
    ensures
        (a * pow10(k)) % (pow10(s) as int) == pow10(k) * (a % (pow10((s - k) as nat) as int)),
        (a * pow10(k)) / (pow10(s) as int) == a / (pow10((s - k) as nat) as int),
{
    let t = (s - k) as nat;
    lemma_pow10_add(k, t);
    lemma_pow10_pos(k);
    lemma_pow10_pos(t);
    let p = pow10(k) as int;
    let d = pow10(t) as int;
    let q = a / d;
    let r = a % d;
    vstd::arithmetic::div_mod::lemma_fundamental_div_mod(a, d);
    assert(0 <= r < d);
    assert(a * p == (p * d) * q + p * r) by (nonlinear_arith)
        requires
            a == d * q + r,
    ;
    assert(0 <= p * r < p * d) by (nonlinear_arith)
        requires
            0 <= r < d,
            p >= 1,
    ;
    assert(pow10(s) as int == p * d);
    vstd::arithmetic::div_mod::lemma_fundamental_div_mod_converse(a * p, p * d, q, p * r);
}

/// Scaling `a` by `10^k` and dividing by `10^s` when `s < k` is exact and
/// gives `a * 10^(k - s)`.
proof fn lemma_scale_up(a: int, s: nat, k: nat)
    requires
        a >= 0,
        s < k,
    ensures
        (a * pow10(k)) % (pow10(s) as int) == 0,
        (a * pow10(k)) / (pow10(s) as int) == a * pow10((k - s) as nat),
{
    let t = (k - s) as nat;
    lemma_pow10_add(s, t);
    lemma_pow10_pos(s);
    let d = pow10(s) as int;
    let e = pow10(t) as int;
    assert(a * pow10(k) == d * (a * e) + 0) by (nonlinear_arith)
        requires
            pow10(k) == d * e,
    ;
    vstd::arithmetic::div_mod::lemma_fundamental_div_mod_converse(a * pow10(k), d, a * e, 0);
}

/// Ten to the 39th exceeds every `u128` magnitude of an `i128`.
proof fn lemma_pow10_past_i128(t: nat)
    requires
        t >= 39,
    ensures
        pow10(t) > 0x8000_0000_0000_0000_0000_0000_0000_0000,
{
    reveal_with_fuel(pow10, 40);
    lemma_pow10_monotone(39, t);
}

/// The minor units of an OFX amount given by its mantissa and scale: its
/// absolute value times `10^minor_unit_exponent`, which must be whole and
/// fit in an `i64`; `amount_text` is how the amount is written in errors.
pub fn scaled_minor_units(
    mantissa: i128,
    scale: u32,
    minor_unit_exponent: u8,
    amount_text: &str,
    fit_id: &str,
) -> (r: Result<i64, OfxImportError>)
    requires
        minor_unit_exponent <= 18,
    ensures
        match minor_amount(mantissa as int, scale as nat, minor_unit_exponent as nat) {
            Some(v) => r == Ok::<i64, OfxImportError>(v as i64),
            None => is_conversion_error(
                r,
                fit_id@,
                conversion_detail(mantissa as int, scale as nat, minor_unit_exponent as nat, amount_text@),
            ),
        },
        r matches Ok(v) ==> v >= 0,
{
    let ghost m = mantissa as int;
    let ghost abs_m: int = if m < 0 {
        -m
    } else {
        m
    };
    let a: u128 = if mantissa < 0 {
        ((-(mantissa + 1)) as u128) + 1
    } else {
        mantissa as u128
    };
    assert(a as int == abs_m);
    let k = minor_unit_exponent as u32;
    let ghost sn = scale as nat;
    let ghost kn = k as nat;
    let mut fractional = false;
    let mut q: u128 = 0;
    let mut exceeds = false;
    if scale >= k {
        let sk = scale - k;
        proof {
            lemma_scale_down(abs_m, sn, kn);
            lemma_pow10_pos(kn);
        }
        if sk > 38 {
            proof {
                lemma_pow10_past_i128(sk as nat);
                vstd::arithmetic::div_mod::lemma_fundamental_div_mod_converse(
                    abs_m,
                    pow10(sk as nat) as int,
                    0,
                    abs_m,
                );
            }
            if a != 0 {
                fractional = true;
            }
        } else {
            let d = pow10_u128(sk);
            proof {
                lemma_pow10_pos(sk as nat);
            }
            if a % d != 0 {
                fractional = true;
            } else {
                q = a / d;
            }
        }
        proof {
            if !fractional {
                assert(pow10(kn) * 0 == 0);
            } else {
                assert(pow10(kn) * (abs_m % (pow10((sn - kn) as nat) as int)) != 0) by (nonlinear_arith)
                    requires
                        pow10(kn) >= 1,
                        abs_m % (pow10((sn - kn) as nat) as int) != 0,
                ;
            }
        }
    } else {
        proof {
            lemma_scale_up(abs_m, sn, kn);
            lemma_pow10_38();
            lemma_pow10_monotone((kn - sn) as nat, 18);
            lemma_pow10_pos((kn - sn) as nat);
        }
        let e = pow10_u128(k - scale);
        if a > 0x7fff_ffff_ffff_ffffu128 / e {
            exceeds = true;
            assert(a * e > 0x7fff_ffff_ffff_ffffu128) by (nonlinear_arith)
                requires
                    a > 0x7fff_ffff_ffff_ffffu128 / e,
                    e >= 1,
            ;
        } else {
            assert(a * e <= 0x7fff_ffff_ffff_ffffu128) by (nonlinear_arith)
                requires
                    a <= 0x7fff_ffff_ffff_ffffu128 / e,
                    e >= 1,
            ;
            q = a * e;
        }
    }
    if fractional {
        let mut detail = "amount ".to_string();
        push_str(&mut detail, amount_text);
        push_str(&mut detail, " has more decimal places than the currency allows (");
        push_str(&mut detail, i128_to_string(minor_unit_exponent as i128).as_str());
        push_str(&mut detail, ")");
        return Err(OfxImportError::AmountConversion { fit_id: fit_id.to_string(), detail });
    }
    if exceeds || q > 0x7fff_ffff_ffff_ffffu128 {
        let mut detail = "amount ".to_string();
        push_str(&mut detail, amount_text);
        push_str(&mut detail, " exceeds i64 range");
        return Err(OfxImportError::AmountConversion { fit_id: fit_id.to_string(), detail });
    }
    Ok(q as i64)
}

/// A scaled reading is never negative.
proof fn lemma_scaled_reading_nonneg(m: int, s: nat, k: nat)
    ensures
        scaled_reading(m, s, k) matches Some(v) ==> v >= 0,
{
    lemma_pow10_pos(k);
    lemma_pow10_pos(s);
    let a = if m < 0 {
        -m
    } else {
        m
    };
    let p = pow10(k) as int;
    let d = pow10(s) as int;
    assert(a * p >= 0) by (nonlinear_arith)
        requires
            a >= 0,
            p >= 1,
    ;
    assert((a * p) / d >= 0) by (nonlinear_arith)
        requires
            a * p >= 0,
            d >= 1,
    ;
}

/// The minor units of an amount when it converts: whole and within `i64`.
pub open spec fn minor_amount(m: int, s: nat, k: nat) -> Option<int> {
    match scaled_reading(m, s, k) {
        Some(v) => if v <= i64::MAX {
            Some(v)
        } else {
            None
        },
        None => None,
    }
}

/// Converts an OFX amount to minor units (its absolute value): an error if
/// the scaled amount has a fractional part or exceeds `i64`.
pub fn ofx_amount_to_minor(amount: &OfxAmount, minor_unit_exponent: u8, fit_id: &str) -> (r: Result<i64, OfxImportError>)
    requires
        minor_unit_exponent <= 18,
    ensures
        match minor_amount(amount.mantissa as int, amount.scale as nat, minor_unit_exponent as nat) {
            Some(v) => r == Ok::<i64, OfxImportError>(v as i64),
            None => is_conversion_error(
                r,
                fit_id@,
                conversion_detail(
                    amount.mantissa as int,
                    amount.scale as nat,
                    minor_unit_exponent as nat,
                    amount.text@,
                ),
            ),
        },
        r matches Ok(v) ==> v >= 0,
{
    scaled_minor_units(amount.mantissa, amount.scale, minor_unit_exponent, amount.text.as_str(), fit_id)
}

/// A calendar date written `YYYY-MM-DD`, the year padded to four places
/// (with its sign counted when negative).
pub open spec fn ymd_text(year: int, month: nat, day: nat) -> Seq<char> {
    (if year < 0 {
        seq!['-'] + padded_digits((-year) as nat, 3)
    } else {
        padded_digits(year as nat, 4)
    }) + seq!['-'] + padded_digits(month, 2) + seq!['-'] + padded_digits(day, 2)
}

/// Writes a statement date as `YYYY-MM-DD`.
pub fn format_ymd(year: i32, month: u8, day: u8) -> (r: String)
    ensures
        r@ == ymd_text(year as int, month as nat, day as nat),
{
    let mut out = String::new();
    if year < 0 {
        push_str(&mut out, "-");
        let y: u128 = (0i64 - year as i64) as u128;
        push_padded_digits(&mut out, y, 3);
    } else {
        push_padded_digits(&mut out, year as u128, 4);
    }
    push_str(&mut out, "-");
    push_padded_digits(&mut out, month as u128, 2);
    push_str(&mut out, "-");
    push_padded_digits(&mut out, day as u128, 2);
    proof {
        reveal_strlit("-");
    }
    assert(out@ =~= ymd_text(year as int, month as nat, day as nat));
    out
}

/// One OFX transaction ready to post.
#[derive(Debug, Clone)]
pub struct PreparedTransaction {
    /// The posting date, `YYYY-MM-DD`.
    pub date: String,
    /// The description.
    pub description: String,
    /// The absolute amount in minor units.
    pub amount_minor: i64,
    /// Whether money came into the bank account.
    pub is_inflow: bool,
    /// The deduplication reference.
    pub reference: String,
    /// The metadata JSON.
    pub metadata: String,
    /// The statement currency code.
    pub currency: String,
}

/// The fields of one OFX statement transaction, as plain values.
#[derive(Debug, Clone)]
pub struct StatementFields {
    /// The financial institution's transaction id.
    pub fit_id: String,
    /// The posting date's year.
    pub year: i32,
    /// The posting date's month.
    pub month: u8,
    /// The posting date's day.
    pub day: u8,
    /// The payee name, if any.
    pub name: Option<String>,
    /// The memo, if any.
    pub memo: Option<String>,
    /// The OFX transaction type, such as `DEBIT`.
    pub transaction_type: String,
}

/// One transaction of a statement: its fields and its amount.
#[derive(Debug, Clone)]
pub struct StatementLine {
    /// The transaction's fields.
    pub fields: StatementFields,
    /// The signed amount; positive when money came in.
    pub amount: OfxAmount,
}

/// One bank or credit-card statement of an OFX document.
#[derive(Debug, Clone)]
pub struct StatementBatch {
    /// The statement's account id.
    pub account_id: String,
    /// The statement's default currency code, as written.
    pub currency: String,
    /// The statement's transactions, in document order.
    pub lines: Vec<StatementLine>,
}

/// Borrows an optional string as an optional slice.
fn opt_str(s: &Option<String>) -> (r: Option<&str>)
    ensures
        opt_view(r) == opt_string_view(*s),
{
    match s {
        Some(t) => Some(t.as_str()),
        None => None,
    }
}

/// The date of a statement transaction, `YYYY-MM-DD`.
pub open spec fn fields_date(f: StatementFields) -> Seq<char> {
    ymd_text(f.year as int, f.month as nat, f.day as nat)
}

/// The description of a statement transaction.
pub open spec fn fields_description(f: StatementFields) -> Seq<char> {
    description_text(opt_string_view(f.name), opt_string_view(f.memo), f.fit_id@)
}

/// Whether `p` posts the transaction `f` of the statement of account
/// `account_id` in currency `currency_code`, for `amount_minor` minor units,
/// inflowing or not.
pub open spec fn is_prepared(
    p: PreparedTransaction,
    f: StatementFields,
    amount_minor: int,
    is_inflow: bool,
    account_id: Seq<char>,
    currency_code: Seq<char>,
) -> bool {
    &&& p.amount_minor == amount_minor
    &&& p.is_inflow == is_inflow
    &&& p.date@ == fields_date(f)
    &&& p.description@ == fields_description(f)
    &&& p.reference@ == "ofx:"@ + account_id + ":"@ + f.fit_id@
    &&& p.metadata@ == "{\"ofx_type\":\""@ + f.transaction_type@ + "\"}"@
    &&& p.currency@ == currency_code
}

/// What preparing a transaction with fields `f` and an amount of
/// `m / 10^s` (written `text`) gives in a currency of `k` minor-unit
/// places: nothing for a zero amount, the prepared transaction when the
/// amount converts, the conversion error otherwise.
pub open spec fn is_preparation(
    r: Result<Option<PreparedTransaction>, OfxImportError>,
    f: StatementFields,
    m: int,
    s: nat,
    text: Seq<char>,
    account_id: Seq<char>,
    currency_code: Seq<char>,
    k: nat,
) -> bool {
    if m == 0 {
        r matches Ok(None)
    } else {
        match minor_amount(m, s, k) {
            Some(v) => r matches Ok(Some(p)) && is_prepared(p, f, v, m > 0, account_id, currency_code),
            None => is_conversion_error(r, f.fit_id@, conversion_detail(m, s, k, text)),
        }
    }
}

/// Prepares one OFX transaction whose amount has the given mantissa and
/// scale: `None` for a zero amount, which cannot form a double entry;
/// otherwise its date, description, absolute amount in minor units,
/// direction, reference and metadata.
pub fn prepare_from_parts(
    fields: &StatementFields,
    mantissa: i128,
    scale: u32,
    amount_text: &str,
    account_id: &str,
    currency_code: &str,
    minor_units: u8,
) -> (r: Result<Option<PreparedTransaction>, OfxImportError>)
    requires
        minor_units <= 18,
    ensures
        is_preparation(
            r,
            *fields,
            mantissa as int,
            scale as nat,
            amount_text@,
            account_id@,
            currency_code@,
            minor_units as nat,
        ),
        r matches Ok(Some(p)) ==> p.amount_minor >= 0,
{
    if mantissa == 0 {
        return Ok(None);
    }
    proof {
        lemma_scaled_reading_nonneg(mantissa as int, scale as nat, minor_units as nat);
    }
    let amount_minor = match scaled_minor_units(mantissa, scale, minor_units, amount_text, fields.fit_id.as_str()) {
        Ok(v) => v,
        Err(e) => return Err(e),
    };
    let fit_id = fields.fit_id.as_str();
    let p = PreparedTransaction {
        date: format_ymd(fields.year, fields.month, fields.day),
        description: build_description(opt_str(&fields.name), opt_str(&fields.memo), fit_id),
        amount_minor,
        is_inflow: mantissa > 0,
        reference: build_ofx_reference(account_id, fit_id),
        metadata: build_metadata_json(fields.transaction_type.as_str()),
        currency: currency_code.to_string(),
    };
    assert(minor_amount(mantissa as int, scale as nat, minor_units as nat) == Some(amount_minor as int));
    Ok(Some(p))
}

/// Prepares one OFX transaction for posting. A zero amount gives `None`;
/// an amount that does not convert to the currency's minor units gives the
/// conversion error.
pub fn prepare_transaction(
    fields: &StatementFields,
    amount: &OfxAmount,
    account_id: &str,
    currency_code: &str,
    minor_units: u8,
) -> (r: Result<Option<PreparedTransaction>, OfxImportError>)
    requires
        minor_units <= 18,
    ensures
        is_preparation(
            r,
            *fields,
            amount.mantissa as int,
            amount.scale as nat,
            amount.text@,
            account_id@,
            currency_code@,
            minor_units as nat,
        ),
        r matches Ok(Some(p)) ==> p.amount_minor >= 0,
{
    prepare_from_parts(
        fields,
        amount.mantissa,
        amount.scale,
        amount.text.as_str(),
        account_id,
        currency_code,
        minor_units,
    )
}

/// The failure recorded for a transaction that could not be prepared: its
/// date and description, no amount, and the error's message.
pub fn preparation_failure(fields: &StatementFields, error: &OfxImportError) -> (f: FailedTransaction)
    ensures
        f.date@ == fields_date(*fields),
        f.description@ == fields_description(*fields),
        f.amount_minor == 0,
        f.error@ == ofx_error_text(*error),
{
    FailedTransaction {
        date: format_ymd(fields.year, fields.month, fields.day),
        description: build_description(opt_str(&fields.name), opt_str(&fields.memo), fields.fit_id.as_str()),
        amount_minor: 0,
        error: error.to_string(),
    }
}

/// What becomes of one statement transaction once prepared.
#[derive(Debug, Clone)]
pub enum LineOutcome {
    /// A zero amount, which cannot form a double entry: nothing to post.
    Zero {
        /// The posting date, `YYYY-MM-DD`.
        date: String,
        /// The financial institution's transaction id.
        fit_id: String,
    },
    /// The amount did not convert: record this failure.
    Failed(FailedTransaction),
    /// Ready to post.
    Ready(PreparedTransaction),
}

/// Whether `o` is what the statement line `line` of account `account_id`
/// becomes in a currency with code `currency_code` and `k` minor-unit
/// places.
pub open spec fn is_line_outcome(
    o: LineOutcome,
    line: StatementLine,
    account_id: Seq<char>,
    currency_code: Seq<char>,
    k: nat,
) -> bool {
    let f = line.fields;
    let m = line.amount.mantissa as int;
    let s = line.amount.scale as nat;
    if m == 0 {
        o matches LineOutcome::Zero { date, fit_id } && date@ == fields_date(f) && fit_id@ == f.fit_id@
    } else {
        match minor_amount(m, s, k) {
            Some(v) => o matches LineOutcome::Ready(p) && is_prepared(
                p,
                f,
                v,
                m > 0,
                account_id,
                currency_code,
            ),
            None => o matches LineOutcome::Failed(t) && t.date@ == fields_date(f) && t.description@
                == fields_description(f) && t.amount_minor == 0 && t.error@
                == "amount conversion failed for transaction '"@ + f.fit_id@ + "': "@
                + conversion_detail(m, s, k, line.amount.text@),
        }
    }
}

/// Prepares one statement line: a zero amount is noted, an amount that
/// does not convert becomes a failure, and any other is ready to post.
pub fn prepare_line(line: &StatementLine, account_id: &str, currency_code: &str, minor_units: u8) -> (o: LineOutcome)
    requires
        minor_units <= 18,
    ensures
        is_line_outcome(o, *line, account_id@, currency_code@, minor_units as nat),
{
    match prepare_transaction(&line.fields, &line.amount, account_id, currency_code, minor_units) {
        Ok(Some(p)) => LineOutcome::Ready(p),
        Ok(None) => LineOutcome::Zero {
            date: format_ymd(line.fields.year, line.fields.month, line.fields.day),
            fit_id: line.fields.fit_id.clone(),
        },
        Err(e) => LineOutcome::Failed(preparation_failure(&line.fields, &e)),
    }
}

/// A statement ready to import: its currency and what becomes of each of
/// its transactions, in order.
#[derive(Debug, Clone)]
pub struct PreparedStatement {
    /// The currency code.
    pub currency: String,
    /// The currency's minor-unit places.
    pub minor_units: u8,
    /// One outcome per statement transaction.
    pub lines: Vec<LineOutcome>,
}

/// Whether `r` is what the statement `b` becomes: `UnsupportedCurrency`
/// when its currency is not one of the library's, else each of its lines
/// prepared in that currency.
pub open spec fn is_statement_outcome(r: Result<PreparedStatement, OfxImportError>, b: StatementBatch) -> bool {
    match currency_named(b.currency@) {
        None => r matches Err(OfxImportError::UnsupportedCurrency { code }) && code@ == b.currency@,
        Some(cur) => r matches Ok(p) && {
            &&& p.currency@ == currency_code_text(cur)
            &&& p.minor_units == cur.spec_minor_units()
            &&& p.lines@.len() == b.lines@.len()
            &&& forall|j: int|
                0 <= j < b.lines@.len() ==> #[trigger] is_line_outcome(
                    p.lines@[j],
                    b.lines@[j],
                    b.account_id@,
                    currency_code_text(cur),
                    cur.spec_minor_units() as nat,
                )
        },
    }
}

/// Prepares one statement: its currency must be supported; then each of
/// its transactions is prepared in that currency.
pub fn prepare_batch(batch: &StatementBatch) -> (r: Result<PreparedStatement, OfxImportError>)
    ensures
        is_statement_outcome(r, *batch),
{
    let (currency, minor_units) = match validate_currency(batch.currency.as_str()) {
        Ok(v) => v,
        Err(e) => return Err(e),
    };
    let mut lines: Vec<LineOutcome> = Vec::new();
    let n = batch.lines.len();
    let mut i: usize = 0;
    while i < n
        invariant
            n == batch.lines@.len(),
            i <= n,
            minor_units <= 18,
            lines@.len() == i,
            forall|j: int|
                0 <= j < i ==> #[trigger] is_line_outcome(
                    lines@[j],
                    batch.lines@[j],
                    batch.account_id@,
                    currency@,
                    minor_units as nat,
                ),
        decreases n - i,
    {
        let o = prepare_line(&batch.lines[i], batch.account_id.as_str(), currency.as_str(), minor_units);
        lines.push(o);
        i = i + 1;
    }
    Ok(PreparedStatement { currency, minor_units, lines })
}

/// The statement responses of one OFX message set, as `ofx_rs` reads them
/// out: one per transaction wrapper, `None` where a wrapper holds no
/// statement; the whole set is `None` when the document lacks it.
pub type MessageSet = Option<Vec<Option<StatementBatch>>>;

/// The three message sets of an OFX document that hold bank statements.
#[derive(Debug, Clone)]
pub struct OfxMessageSets {
    /// The banking message set (`BANKMSGSRSV1`).
    pub banking: MessageSet,
    /// The credit-card message set (`CREDITCARDMSGSRSV1`).
    pub credit_card: MessageSet,
    /// The investment message set (`INVSTMTMSGSRSV1`); `ofx_rs` keeps only
    /// the `INVBANKTRAN` banking transactions of its statements.
    pub investment: MessageSet,
}

/// The message sets that `ofx_rs::parse` reads from an OFX document, or the
/// parse error.
pub uninterp spec fn ofx_message_sets(content: Seq<char>) -> Result<OfxMessageSets, OfxImportError>;

/// Parses an OFX document with `ofx_rs::parse` and reads out the statements
/// of its banking, credit-card and investment message sets as plain
/// values, each with its account id, currency and transactions; a parse
/// failure is `ParseFailed` with the parser's message.
#[verifier::external_body]
fn parse_statements(content: &str) -> (r: Result<OfxMessageSets, OfxImportError>)
    ensures
        r == ofx_message_sets(content@),
        r matches Err(e) ==> e is ParseFailed,
{
    let doc = ofx_rs::parse(content).map_err(|e| OfxImportError::ParseFailed { message: e.to_string() })?;
    Ok(OfxMessageSets {
        banking: doc.banking().map(|b| b.statement_responses().iter().map(|w| w.response().map(bank_statement)).collect()),
        credit_card: doc.credit_card().map(|c| c.statement_responses().iter().map(|w| w.response().map(card_statement)).collect()),
        investment: doc.investment().map(|i| i.statement_responses().iter().map(|w| w.response().map(investment_statement)).collect()),
    })
}

/// `ofx_rs`'s bank statement response, carried opaquely.
#[verifier::external_type_specification]
#[verifier::external_body]
pub struct ExStatementResponse(StatementResponse);

/// `ofx_rs`'s credit-card statement response, carried opaquely.
#[verifier::external_type_specification]
#[verifier::external_body]
pub struct ExCcStatementResponse(CcStatementResponse);

/// `ofx_rs`'s investment statement response, carried opaquely.
#[verifier::external_type_specification]
#[verifier::external_body]
pub struct ExInvStatementResponse(InvStatementResponse);

/// An `ofx_rs` bank statement read out by `statement_batch`, with the bank
/// account's id.
#[verifier::external_body]
fn bank_statement(s: &StatementResponse) -> StatementBatch {
    statement_batch(s.bank_account().account_id().as_str(), s.currency_default().as_str(), s.transaction_list())
}

/// An `ofx_rs` credit-card statement read out by `statement_batch`, with
/// the card account's id.
#[verifier::external_body]
fn card_statement(s: &CcStatementResponse) -> StatementBatch {
    statement_batch(s.credit_card_account().account_id().as_str(), s.currency_default().as_str(), s.transaction_list())
}

/// An `ofx_rs` investment statement read out by `statement_batch`, with
/// the investment account's id.
#[verifier::external_body]
fn investment_statement(s: &InvStatementResponse) -> StatementBatch {
    statement_batch(s.investment_account().account_id().as_str(), s.currency_default().as_str(), s.transaction_list())
}

/// The statements present among responses, in order.
pub open spec fn present_statements(s: Seq<Option<StatementBatch>>) -> Seq<StatementBatch>
    decreases s.len(),
{
    if s.len() == 0 {
        Seq::empty()
    } else {
        present_statements(s.drop_last()) + match s.last() {
            Some(b) => seq![b],
            None => Seq::empty(),
        }
    }
}

/// The statements of a message set, in order (none when it is absent).
pub open spec fn set_statements(m: MessageSet) -> Seq<StatementBatch> {
    match m {
        Some(v) => present_statements(v@),
        None => Seq::empty(),
    }
}

/// The statements an import reads, in order: the banking statements, then
/// the credit-card statements, then the investment statements.
pub open spec fn imported_statements(m: OfxMessageSets) -> Seq<StatementBatch> {
    set_statements(m.banking) + set_statements(m.credit_card) + set_statements(m.investment)
}

/// Appends the statements of a message set.
fn push_set(out: &mut Vec<StatementBatch>, set: MessageSet)
    ensures
        final(out)@ == old(out)@ + set_statements(set),
{
    match set {
        None => {
            assert(old(out)@ + Seq::<StatementBatch>::empty() =~= old(out)@);
        },
        Some(mut v) => {
            let ghost all = v@;
            let ghost start = out@;
            let total = v.len();
            let mut k: usize = 0;
            while v.len() > 0
                invariant
                    k <= all.len(),
                    k + v@.len() == all.len(),
                    all.len() == total,
                    v@ == all.skip(k as int),
                    out@ == start + present_statements(all.take(k as int)),
                decreases v@.len(),
            {
                let x = v.remove(0);
                proof {
                    assert(all.take(k + 1).drop_last() =~= all.take(k as int));
                    assert(all.take(k + 1).last() == x);
                }
                match x {
                    Some(b) => out.push(b),
                    None => {},
                }
                k = k + 1;
                assert(v@ =~= all.skip(k as int));
                assert(out@ =~= start + present_statements(all.take(k as int)));
            }
            assert(all.take(k as int) =~= all);
        },
    }
}

/// The statements to import from the message sets, in order: banking, then
/// credit card, then investment.
pub fn collect_statements(sets: OfxMessageSets) -> (r: Vec<StatementBatch>)
    ensures
        r@ == imported_statements(sets),
{
    let mut out: Vec<StatementBatch> = Vec::new();
    push_set(&mut out, sets.banking);
    push_set(&mut out, sets.credit_card);
    push_set(&mut out, sets.investment);
    assert(out@ =~= imported_statements(sets));
    out
}

/// `ofx_rs`'s list of statement transactions, carried opaquely.
#[verifier::external_type_specification]
#[verifier::external_body]
pub struct ExTransactionList(TransactionList);

/// `ofx_rs`'s statement transaction, carried opaquely.
#[verifier::external_type_specification]
#[verifier::external_body]
pub struct ExStatementTransaction(StatementTransaction);

/// A statement read out of `ofx_rs`'s aggregates: its account id, currency
/// and the transactions of its list (none without one).
#[verifier::external_body]
fn statement_batch(account_id: &str, currency: &str, list: Option<&TransactionList>) -> StatementBatch {
    StatementBatch {
        account_id: account_id.to_string(),
        currency: currency.to_string(),
        lines: list.map_or(Vec::new(), |l| l.transactions().iter().map(statement_line).collect()),
    }
}

/// One `ofx_rs` statement transaction as plain values: the posting date's
/// calendar fields, the `rust_decimal` amount's mantissa, scale and display
/// text, and the transaction type as the crate writes it.
#[verifier::external_body]
fn statement_line(txn: &StatementTransaction) -> StatementLine {
    let date = txn.date_posted().as_offset_date_time();
    let amount = txn.amount().as_decimal();
    let fields = StatementFields {
        fit_id: txn.fit_id().as_str().to_string(),
        year: date.year(),
        month: u8::from(date.month()),
        day: date.day(),
        name: txn.name().map(str::to_string),
        memo: txn.memo().map(str::to_string),
        transaction_type: txn.transaction_type().to_string(),
    };
    StatementLine { fields, amount: OfxAmount { mantissa: amount.mantissa(), scale: amount.scale(), text: amount.to_string() } }
}

/// Reads the statements of an OFX document and prepares each: the parse
/// error when the document does not parse, else one outcome per statement,
/// in document order (banking statements first, then credit-card ones,
/// then the banking transactions of investment ones).
pub fn read_statements(content: &str) -> (r: Result<Vec<Result<PreparedStatement, OfxImportError>>, OfxImportError>)
    ensures
        match ofx_message_sets(content@) {
            Err(e) => r == Err::<Vec<Result<PreparedStatement, OfxImportError>>, OfxImportError>(e),
            Ok(m) => r matches Ok(ps) && ps@.len() == imported_statements(m).len() && forall|i: int|
                0 <= i < imported_statements(m).len() ==> #[trigger] is_statement_outcome(
                    ps@[i],
                    imported_statements(m)[i],
                ),
        },
{
    let sets = match parse_statements(content) {
        Ok(m) => m,
        Err(e) => return Err(e),
    };
    let batches = collect_statements(sets);
    let mut out: Vec<Result<PreparedStatement, OfxImportError>> = Vec::new();
    let n = batches.len();
    let mut i: usize = 0;
    while i < n
        invariant
            n == batches@.len(),
            i <= n,
            out@.len() == i,
            forall|j: int| 0 <= j < i ==> #[trigger] is_statement_outcome(out@[j], batches@[j]),
        decreases n - i,
    {
        out.push(prepare_batch(&batches[i]));
        i = i + 1;
    }
    Ok(out)
}

/// Whether `es` is the balanced pair that posts `prepared`: money in
/// debits the bank account `account_code` and credits the suspense account
/// `suspense_code`, money out the reverse, each for the amount in minor
/// units, with no memo or tax category.
pub open spec fn is_import_pair(
    es: Seq<PostEntryParams>,
    prepared: PreparedTransaction,
    account_code: Seq<char>,
    suspense_code: Seq<char>,
) -> bool {
    &&& es.len() == 2
    &&& es[0].direction@ == "debit"@
    &&& es[1].direction@ == "credit"@
    &&& es[0].amount == prepared.amount_minor
    &&& es[1].amount == prepared.amount_minor
    &&& es[0].account_code@ == (if prepared.is_inflow {
        account_code
    } else {
        suspense_code
    })
    &&& es[1].account_code@ == (if prepared.is_inflow {
        suspense_code
    } else {
        account_code
    })
    &&& es[0].memo is None && es[0].tax_category is None
    &&& es[1].memo is None && es[1].tax_category is None
}

/// The two balanced entries of an imported transaction: money in debits
/// the bank account and credits the suspense account; money out the
/// reverse.
pub fn import_entries(prepared: &PreparedTransaction, account_code: &str, suspense_code: &str) -> (r: Vec<PostEntryParams>)
    ensures
        is_import_pair(r@, *prepared, account_code@, suspense_code@),
{
    let (debit_code, credit_code) = if prepared.is_inflow {
        (account_code, suspense_code)
    } else {
        (suspense_code, account_code)
    };
    vec![
        PostEntryParams {
            account_code: debit_code.to_string(),
            direction: "debit".to_string(),
            amount: prepared.amount_minor,
            memo: None,
            tax_category: None,
        },
        PostEntryParams {
            account_code: credit_code.to_string(),
            direction: "credit".to_string(),
            amount: prepared.amount_minor,
            memo: None,
            tax_category: None,
        },
    ]
}

/// What becomes of one prepared transaction before any posting.
#[derive(Debug, Clone)]
pub enum ImportStep {
    /// A transaction with the same reference exists: skip it.
    Skip(SkippedTransaction),
    /// The duplicate check failed: record the error.
    Fail(FailedTransaction),
    /// A dry run: count it as imported, with id 0.
    Preview(ImportedTransaction),
    /// Post it with these entries.
    Post(Vec<PostEntryParams>),
}

/// Decides the next step for a prepared transaction from the outcome of
/// the duplicate check (`Ok(exists)`, or the check's error message).
pub fn import_step(
    prepared: &PreparedTransaction,
    account_code: &str,
    suspense_code: &str,
    dry_run: bool,
    reference_check: Result<bool, String>,
) -> (r: ImportStep)
    ensures
        match reference_check {
            Ok(true) => r matches ImportStep::Skip(s) && s.date == prepared.date && s.description
                == prepared.description && s.amount_minor == prepared.amount_minor && s.reference
                == prepared.reference,
            Err(msg) => r matches ImportStep::Fail(f) && f.date == prepared.date && f.description
                == prepared.description && f.amount_minor == prepared.amount_minor && f.error
                == msg,
            Ok(false) => if dry_run {
                r matches ImportStep::Preview(t) && t.id == 0 && t.date == prepared.date
                    && t.description == prepared.description && t.amount_minor
                    == prepared.amount_minor && t.is_inflow == prepared.is_inflow
            } else {
                r matches ImportStep::Post(es) && is_import_pair(
                    es@,
                    *prepared,
                    account_code@,
                    suspense_code@,
                )
            },
        },
{
    match reference_check {
        Ok(true) => ImportStep::Skip(
            SkippedTransaction {
                date: prepared.date.clone(),
                description: prepared.description.clone(),
                amount_minor: prepared.amount_minor,
                reference: prepared.reference.clone(),
            },
        ),
        Err(msg) => ImportStep::Fail(
            FailedTransaction {
                date: prepared.date.clone(),
                description: prepared.description.clone(),
                amount_minor: prepared.amount_minor,
                error: msg,
            },
        ),
        Ok(false) => if dry_run {
            ImportStep::Preview(
                ImportedTransaction {
                    id: 0,
                    date: prepared.date.clone(),
                    description: prepared.description.clone(),
                    amount_minor: prepared.amount_minor,
                    is_inflow: prepared.is_inflow,
                },
            )
        } else {
            ImportStep::Post(import_entries(prepared, account_code, suspense_code))
        },
    }
}

/// The duplicate check of an imported transaction, from the lookup of its
/// reference (the id of a transaction that has it, or the lookup's error
/// message): not a duplicate; a duplicate, when the conflict strategy lets
/// the import skip it; the strategy's error, which ends the import; or the
/// lookup's error, recorded against the transaction.
pub fn import_reference_check(
    strategy: ConflictStrategy,
    reference: &str,
    lookup: Result<Option<i64>, String>,
) -> (r: Result<Result<bool, String>, CliError>)
    ensures
        match lookup {
            Ok(None) => r == Ok::<Result<bool, String>, CliError>(Ok(false)),
            Err(m) => r == Ok::<Result<bool, String>, CliError>(Err(m)),
            Ok(Some(id)) => if strategy is Skip {
                r == Ok::<Result<bool, String>, CliError>(Ok(true))
            } else {
                r matches Err(e) && is_conflict_outcome(
                    Err::<PostResult, CliError>(e),
                    strategy,
                    reference@,
                    id,
                )
            },
        },
{
    match lookup {
        Ok(None) => Ok(Ok(false)),
        Err(m) => Ok(Err(m)),
        Ok(Some(id)) => match conflict_outcome(strategy, reference, id) {
            Ok(_) => Ok(Ok(true)),
            Err(e) => Err(e),
        },
    }
}

/// Records the outcome of posting a prepared transaction: its new id, or
/// the error message.
pub fn record_posting(result: &mut ImportResult, prepared: &PreparedTransaction, posted: Result<i64, String>)
    ensures
        match posted {
            Ok(id) => final(result).imported@ == old(result).imported@.push(
                ImportedTransaction {
                    id,
                    date: prepared.date,
                    description: prepared.description,
                    amount_minor: prepared.amount_minor,
                    is_inflow: prepared.is_inflow,
                },
            ) && final(result).skipped@ == old(result).skipped@ && final(result).errors@ == old(
                result,
            ).errors@,
            Err(msg) => final(result).errors@ == old(result).errors@.push(
                FailedTransaction {
                    date: prepared.date,
                    description: prepared.description,
                    amount_minor: prepared.amount_minor,
                    error: msg,
                },
            ) && final(result).imported@ == old(result).imported@ && final(result).skipped@ == old(
                result,
            ).skipped@,
        },
{
    match posted {
        Ok(id) => result.imported.push(
            ImportedTransaction {
                id,
                date: prepared.date.clone(),
                description: prepared.description.clone(),
                amount_minor: prepared.amount_minor,
                is_inflow: prepared.is_inflow,
            },
        ),
        Err(msg) => result.errors.push(
            FailedTransaction {
                date: prepared.date.clone(),
                description: prepared.description.clone(),
                amount_minor: prepared.amount_minor,
                error: msg,
            },
        ),
    }
}

} // verus!
