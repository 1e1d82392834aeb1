use beankeeper::cli::commands::import_ofx::{
    build_description, build_metadata_json, build_ofx_reference, detect_format, format_ymd,
    collect_statements, import_entries, import_step, ofx_amount_to_minor, prepare_batch, prepare_from_parts,
    prepare_line, prepare_transaction, preparation_failure, read_statements, scaled_minor_units,
    ImportStep, LineOutcome, OfxAmount, OfxMessageSets, OfxImportError, PreparedTransaction, StatementBatch,
    StatementFields, StatementLine,
};
use beankeeper::cli::ImportFormat;
use rust_decimal::Decimal;

/// An OFX amount read the way the statement reader reads a decimal.
fn amount(d: Decimal) -> OfxAmount {
    OfxAmount { mantissa: d.mantissa(), scale: d.scale(), text: d.to_string() }
}

// -- build_description -------------------------------------------------

#[test]
fn build_description_both_name_and_memo() {
    assert_eq!(
        build_description(Some("GROCERY STORE"), Some("Weekly groceries"), "12345"),
        "GROCERY STORE - Weekly groceries"
    );
}

#[test]
fn build_description_name_only() {
    assert_eq!(build_description(Some("GROCERY STORE"), None, "12345"), "GROCERY STORE");
}

#[test]
fn build_description_memo_only() {
    assert_eq!(build_description(None, Some("Weekly groceries"), "12345"), "Weekly groceries");
}

#[test]
fn build_description_neither() {
    assert_eq!(build_description(None, None, "12345"), "OFX transaction 12345");
}

#[test]
fn build_description_whitespace_trimmed() {
    assert_eq!(build_description(Some("  STORE  "), Some("  memo  "), "1"), "STORE - memo");
}

#[test]
fn build_description_empty_strings_treated_as_none() {
    assert_eq!(build_description(Some(""), Some(""), "42"), "OFX transaction 42");
}

// -- ofx_amount_to_minor -----------------------------------------------

#[test]
fn amount_positive_usd() {
    let d = Decimal::new(5000, 2); // 50.00
    assert_eq!(ofx_amount_to_minor(&amount(d), 2, "t1").unwrap(), 5000);
}

#[test]
fn amount_negative_takes_absolute() {
    let d = Decimal::new(-5000, 2); // -50.00
    assert_eq!(ofx_amount_to_minor(&amount(d), 2, "t1").unwrap(), 5000);
}

#[test]
fn amount_three_decimal_currency() {
    let d = Decimal::new(50125, 3); // 50.125
    assert_eq!(ofx_amount_to_minor(&amount(d), 3, "t1").unwrap(), 50125);
}

#[test]
fn amount_jpy_zero_decimals() {
    let d = Decimal::new(5000, 0); // 5000
    assert_eq!(ofx_amount_to_minor(&amount(d), 0, "t1").unwrap(), 5000);
}

#[test]
fn amount_fractional_remainder_errors() {
    let d = Decimal::new(50005, 3); // 50.005
    assert!(ofx_amount_to_minor(&amount(d), 2, "t1").is_err());
}

#[test]
fn amount_fractional_remainder_message() {
    let d = Decimal::new(50005, 3);
    match ofx_amount_to_minor(&amount(d), 2, "t1") {
        Err(e) => assert_eq!(
            e.to_string(),
            "amount conversion failed for transaction 't1': amount 50.005 has more decimal places than the currency allows (2)"
        ),
        Ok(v) => panic!("expected an error, got {v}"),
    }
}

#[test]
fn scaled_minor_units_range_and_exactness() {
    assert_eq!(scaled_minor_units(-12345, 2, 2, "-123.45", "x").ok(), Some(12345));
    assert_eq!(scaled_minor_units(12, 0, 3, "12", "x").ok(), Some(12000));
    match scaled_minor_units(i64::MAX as i128 + 1, 0, 0, "big", "x") {
        Err(OfxImportError::AmountConversion { fit_id, detail }) => {
            assert_eq!(fit_id, "x");
            assert_eq!(detail, "amount big exceeds i64 range");
        }
        other => panic!("unexpected {other:?}"),
    }
}

// -- build_ofx_reference -----------------------------------------------

#[test]
fn reference_format() {
    assert_eq!(build_ofx_reference("9876543210", "1001"), "ofx:9876543210:1001");
}

// -- detect_format -----------------------------------------------------

#[test]
fn detect_ofx_extension() {
    assert_eq!(detect_format("statement.ofx").unwrap(), ImportFormat::Ofx);
}

#[test]
fn detect_qfx_extension() {
    assert_eq!(detect_format("statement.QFX").unwrap(), ImportFormat::Ofx);
}

#[test]
fn detect_csv_extension() {
    assert_eq!(detect_format("data.csv").unwrap(), ImportFormat::Csv);
}

#[test]
fn detect_json_extension() {
    assert_eq!(detect_format("data.json").unwrap(), ImportFormat::Json);
}

#[test]
fn detect_unknown_errors() {
    assert!(detect_format("data.txt").is_err());
}

// -- build_metadata_json -----------------------------------------------

#[test]
fn metadata_json_check() {
    assert_eq!(build_metadata_json("CHECK"), r#"{"ofx_type":"CHECK"}"#);
}

#[test]
fn metadata_json_debit() {
    assert_eq!(build_metadata_json("DEBIT"), r#"{"ofx_type":"DEBIT"}"#);
}

// -- preparing and posting ---------------------------------------------

fn fields() -> StatementFields {
    StatementFields {
        fit_id: "1001".to_string(),
        year: 2025,
        month: 3,
        day: 7,
        name: Some("COFFEE".to_string()),
        memo: None,
        transaction_type: "DEBIT".to_string(),
    }
}

#[test]
fn format_ymd_pads() {
    assert_eq!(format_ymd(2025, 3, 7), "2025-03-07");
    assert_eq!(format_ymd(987, 12, 31), "0987-12-31");
}

#[test]
fn prepare_outflow_and_zero() {
    let p = prepare_from_parts(&fields(), -450, 2, "-4.50", "acct", "USD", 2)
        .unwrap()
        .unwrap();
    assert_eq!(p.amount_minor, 450);
    assert!(!p.is_inflow);
    assert_eq!(p.date, "2025-03-07");
    assert_eq!(p.description, "COFFEE");
    assert_eq!(p.reference, "ofx:acct:1001");
    assert_eq!(p.metadata, r#"{"ofx_type":"DEBIT"}"#);
    assert_eq!(p.currency, "USD");
    assert!(prepare_from_parts(&fields(), 0, 2, "0.00", "acct", "USD", 2).unwrap().is_none());
}

fn prepared(is_inflow: bool) -> PreparedTransaction {
    PreparedTransaction {
        date: "2025-03-07".to_string(),
        description: "COFFEE".to_string(),
        amount_minor: 450,
        is_inflow,
        reference: "ofx:acct:1001".to_string(),
        metadata: r#"{"ofx_type":"DEBIT"}"#.to_string(),
        currency: "USD".to_string(),
    }
}

#[test]
fn import_entries_balance_by_direction() {
    let inflow = import_entries(&prepared(true), "1000", "9999");
    assert_eq!(inflow[0].account_code, "1000");
    assert_eq!(inflow[0].direction, "debit");
    assert_eq!(inflow[1].account_code, "9999");
    assert_eq!(inflow[1].direction, "credit");
    assert_eq!(inflow[0].amount, inflow[1].amount);
    let outflow = import_entries(&prepared(false), "1000", "9999");
    assert_eq!(outflow[0].account_code, "9999");
    assert_eq!(outflow[1].account_code, "1000");
}

#[test]
fn import_step_decisions() {
    assert!(matches!(
        import_step(&prepared(true), "1000", "9999", false, Ok(true)),
        ImportStep::Skip(_)
    ));
    assert!(matches!(
        import_step(&prepared(true), "1000", "9999", false, Err("boom".to_string())),
        ImportStep::Fail(f) if f.error == "boom"
    ));
    assert!(matches!(
        import_step(&prepared(true), "1000", "9999", true, Ok(false)),
        ImportStep::Preview(t) if t.id == 0
    ));
    match import_step(&prepared(false), "1000", "9999", false, Ok(false)) {
        ImportStep::Post(es) => {
            assert_eq!(es.len(), 2);
            assert_eq!((es[0].account_code.as_str(), es[0].direction.as_str()), ("9999", "debit"));
            assert_eq!((es[1].account_code.as_str(), es[1].direction.as_str()), ("1000", "credit"));
            assert_eq!((es[0].amount, es[1].amount), (450, 450));
        }
        other => panic!("expected a posting, got {other:?}"),
    }
}

#[test]
fn amount_beyond_decimal_product_converts() {
    let d: Decimal = "7922816251426433.7000000000000".parse().unwrap();
    assert_eq!(ofx_amount_to_minor(&amount(d), 2, "t1").unwrap(), 792281625142643370);
}

#[test]
fn scaled_minor_units_extremes() {
    match scaled_minor_units(i128::MIN, 0, 0, "min", "x") {
        Err(OfxImportError::AmountConversion { detail, .. }) => {
            assert_eq!(detail, "amount min exceeds i64 range")
        }
        other => panic!("unexpected {other:?}"),
    }
    assert_eq!(scaled_minor_units(0, 60, 2, "0", "x").ok(), Some(0));
    assert!(scaled_minor_units(7, 60, 2, "tiny", "x").is_err());
    assert_eq!(scaled_minor_units(1_000_000, 4, 2, "100", "x").ok(), Some(10000));
    assert_eq!(scaled_minor_units(i64::MAX as i128, 0, 0, "max", "x").ok(), Some(i64::MAX));
}

#[test]
fn prepare_transaction_inflow() {
    let p = prepare_transaction(&fields(), &amount(Decimal::new(1999, 2)), "acct", "EUR", 2)
        .unwrap()
        .unwrap();
    assert_eq!(p.amount_minor, 1999);
    assert!(p.is_inflow);
    assert_eq!(p.currency, "EUR");
}

fn line(mantissa: i128, scale: u32, text: &str) -> StatementLine {
    StatementLine {
        fields: fields(),
        amount: OfxAmount { mantissa, scale, text: text.to_string() },
    }
}

#[test]
fn prepare_line_outcomes() {
    assert!(matches!(
        prepare_line(&line(0, 2, "0.00"), "acct", "USD", 2),
        LineOutcome::Zero { date, fit_id } if date == "2025-03-07" && fit_id == "1001"
    ));
    match prepare_line(&line(50005, 3, "50.005"), "acct", "USD", 2) {
        LineOutcome::Failed(f) => {
            assert_eq!(f.date, "2025-03-07");
            assert_eq!(f.description, "COFFEE");
            assert_eq!(f.amount_minor, 0);
            assert_eq!(
                f.error,
                "amount conversion failed for transaction '1001': amount 50.005 has more decimal places than the currency allows (2)"
            );
        }
        other => panic!("expected a failure, got {other:?}"),
    }
    assert!(matches!(
        prepare_line(&line(-450, 2, "-4.50"), "acct", "USD", 2),
        LineOutcome::Ready(p) if p.amount_minor == 450 && !p.is_inflow
    ));
}

#[test]
fn preparation_failure_records_no_amount() {
    let f = preparation_failure(&fields(), &OfxImportError::ParseFailed { message: "m".to_string() });
    assert_eq!(f.error, "OFX parse failed: m");
    assert_eq!(f.amount_minor, 0);
}

#[test]
fn prepare_batch_checks_currency() {
    let batch = StatementBatch {
        account_id: "acct".to_string(),
        currency: "XYZ".to_string(),
        lines: vec![line(-450, 2, "-4.50")],
    };
    assert!(matches!(
        prepare_batch(&batch),
        Err(OfxImportError::UnsupportedCurrency { code }) if code == "XYZ"
    ));
    let jpy = StatementBatch { currency: "JPY".to_string(), ..batch };
    let p = prepare_batch(&jpy).unwrap();
    assert_eq!((p.currency.as_str(), p.minor_units, p.lines.len()), ("JPY", 0, 1));
    assert!(matches!(&p.lines[0], LineOutcome::Failed(_)));
}

const STATEMENT: &str = "<?OFX OFXHEADER=\"200\" VERSION=\"220\" SECURITY=\"NONE\" OLDFILEUID=\"NONE\" NEWFILEUID=\"NONE\"?>
<OFX>
<SIGNONMSGSRSV1><SONRS><STATUS><CODE>0</CODE><SEVERITY>INFO</SEVERITY></STATUS>
<DTSERVER>20230115120000</DTSERVER><LANGUAGE>ENG</LANGUAGE></SONRS></SIGNONMSGSRSV1>
<BANKMSGSRSV1><STMTTRNRS><TRNUID>1001</TRNUID><STATUS><CODE>0</CODE><SEVERITY>INFO</SEVERITY></STATUS>
<STMTRS><CURDEF>USD</CURDEF>
<BANKACCTFROM><BANKID>123456789</BANKID><ACCTID>987654321</ACCTID><ACCTTYPE>CHECKING</ACCTTYPE></BANKACCTFROM>
<BANKTRANLIST><DTSTART>20230101</DTSTART><DTEND>20230131</DTEND>
<STMTTRN><TRNTYPE>DEBIT</TRNTYPE><DTPOSTED>20230115</DTPOSTED><TRNAMT>-50.00</TRNAMT>
<FITID>20230115001</FITID><NAME>GROCERY STORE</NAME><MEMO>Weekly groceries</MEMO></STMTTRN>
</BANKTRANLIST>
<LEDGERBAL><BALAMT>1500.00</BALAMT><DTASOF>20230115120000</DTASOF></LEDGERBAL>
</STMTRS></STMTTRNRS></BANKMSGSRSV1>
</OFX>
";

#[test]
fn read_statements_prepares_each_transaction() {
    let statements = read_statements(STATEMENT).unwrap();
    assert_eq!(statements.len(), 1);
    let st = statements[0].as_ref().unwrap();
    assert_eq!((st.currency.as_str(), st.minor_units, st.lines.len()), ("USD", 2, 1));
    match &st.lines[0] {
        LineOutcome::Ready(p) => {
            assert_eq!(p.date, "2023-01-15");
            assert_eq!(p.description, "GROCERY STORE - Weekly groceries");
            assert_eq!(p.amount_minor, 5000);
            assert!(!p.is_inflow);
            assert_eq!(p.reference, "ofx:987654321:20230115001");
            assert_eq!(p.metadata, r#"{"ofx_type":"DEBIT"}"#);
        }
        other => panic!("expected a prepared transaction, got {other:?}"),
    }
}

#[test]
fn read_statements_reports_parse_failure() {
    assert!(matches!(
        read_statements("not an ofx document"),
        Err(OfxImportError::ParseFailed { .. })
    ));
}

const INVESTMENT_STATEMENT: &str = "<?OFX OFXHEADER=\"200\" VERSION=\"200\" SECURITY=\"NONE\" OLDFILEUID=\"NONE\" NEWFILEUID=\"NONE\"?>
<OFX>
<SIGNONMSGSRSV1><SONRS><STATUS><CODE>0</CODE><SEVERITY>INFO</SEVERITY></STATUS>
<DTSERVER>20051029101003</DTSERVER><LANGUAGE>ENG</LANGUAGE></SONRS></SIGNONMSGSRSV1>
<INVSTMTMSGSRSV1><INVSTMTTRNRS><TRNUID>1001</TRNUID><STATUS><CODE>0</CODE><SEVERITY>INFO</SEVERITY></STATUS>
<INVSTMTRS><DTASOF>20050827010000</DTASOF><CURDEF>USD</CURDEF>
<INVACCTFROM><BROKERID>121099999</BROKERID><ACCTID>999988</ACCTID></INVACCTFROM>
<INVTRANLIST><DTSTART>20050824130105</DTSTART><DTEND>20050828101000</DTEND>
<BUYSTOCK><INVBUY><INVTRAN><FITID>23321</FITID><DTTRADE>20050825</DTTRADE><DTSETTLE>20050828</DTSETTLE></INVTRAN>
<SECID><UNIQUEID>123456789</UNIQUEID><UNIQUEIDTYPE>CUSIP</UNIQUEIDTYPE></SECID>
<UNITS>100</UNITS><UNITPRICE>50.00</UNITPRICE><COMMISSION>25.00</COMMISSION><TOTAL>-5025.00</TOTAL>
<SUBACCTSEC>CASH</SUBACCTSEC><SUBACCTFUND>CASH</SUBACCTFUND></INVBUY><BUYTYPE>BUY</BUYTYPE></BUYSTOCK>
<INVBANKTRAN><STMTTRN><TRNTYPE>CREDIT</TRNTYPE><DTPOSTED>20050825</DTPOSTED><DTUSER>20050825</DTUSER>
<TRNAMT>1000.00</TRNAMT><FITID>12345</FITID><NAME>Customer deposit</NAME><MEMO>Your check #1034</MEMO></STMTTRN>
<SUBACCTFUND>CASH</SUBACCTFUND></INVBANKTRAN>
</INVTRANLIST>
</INVSTMTRS></INVSTMTTRNRS></INVSTMTMSGSRSV1>
</OFX>
";

#[test]
fn read_statements_takes_investment_cash_transactions() {
    let statements = read_statements(INVESTMENT_STATEMENT).unwrap();
    assert_eq!(statements.len(), 1);
    let st = statements[0].as_ref().unwrap();
    assert_eq!((st.currency.as_str(), st.lines.len()), ("USD", 1));
    match &st.lines[0] {
        LineOutcome::Ready(p) => {
            assert_eq!(p.date, "2005-08-25");
            assert_eq!(p.description, "Customer deposit - Your check #1034");
            assert_eq!(p.amount_minor, 100000);
            assert!(p.is_inflow);
            assert_eq!(p.reference, "ofx:999988:12345");
            assert_eq!(p.metadata, r#"{"ofx_type":"CREDIT"}"#);
        }
        other => panic!("expected a prepared transaction, got {other:?}"),
    }
}

fn batch(id: &str) -> StatementBatch {
    StatementBatch { account_id: id.to_string(), currency: "USD".to_string(), lines: vec![] }
}

#[test]
fn collect_statements_orders_message_sets() {
    let sets = OfxMessageSets {
        banking: Some(vec![Some(batch("b1")), None, Some(batch("b2"))]),
        credit_card: None,
        investment: Some(vec![Some(batch("i1"))]),
    };
    let ids: Vec<String> = collect_statements(sets).into_iter().map(|b| b.account_id).collect();
    assert_eq!(ids, vec!["b1", "b2", "i1"]);
}
