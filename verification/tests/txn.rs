use beankeeper::cli::commands::txn::{parse_amount_to_minor, parse_entry_arg};
use beankeeper::types::Currency;

#[test]
fn parse_amount_whole_usd() {
    // 50 dollars -> 5000 cents
    let result = parse_amount_to_minor("50", Currency::USD);
    assert_eq!(result.ok(), Some(5000));
}

#[test]
fn parse_amount_decimal_usd() {
    // 50.00 dollars -> 5000 cents
    let result = parse_amount_to_minor("50.00", Currency::USD);
    assert_eq!(result.ok(), Some(5000));
}

#[test]
fn parse_amount_partial_cents() {
    // 50.5 -> 50.50 -> 5050 cents
    let result = parse_amount_to_minor("50.5", Currency::USD);
    assert_eq!(result.ok(), Some(5050));
}

#[test]
fn parse_amount_jpy() {
    // JPY has 0 minor units: 50 -> 50
    let result = parse_amount_to_minor("50", Currency::JPY);
    assert_eq!(result.ok(), Some(50));
}

#[test]
fn parse_amount_bhd() {
    // BHD has 3 minor units: 50 -> 50000
    let result = parse_amount_to_minor("50", Currency::BHD);
    assert_eq!(result.ok(), Some(50000));
}

#[test]
fn parse_amount_bhd_decimal() {
    // BHD: 50.125 -> 50125
    let result = parse_amount_to_minor("50.125", Currency::BHD);
    assert_eq!(result.ok(), Some(50125));
}

#[test]
fn parse_amount_too_many_decimals() {
    // USD only allows 2 decimal places
    let result = parse_amount_to_minor("50.123", Currency::USD);
    assert!(result.is_err());
}

#[test]
fn parse_entry_arg_valid() {
    let (code, amount, memo) = parse_entry_arg("1000:50", Currency::USD)
        .unwrap_or_else(|e| panic!("parse failed: {}", e.to_string()));
    assert_eq!(code, "1000");
    assert_eq!(amount, 5000);
    assert_eq!(memo, None);
}

#[test]
fn parse_entry_arg_decimal() {
    let (code, amount, memo) = parse_entry_arg("1000:50.00", Currency::USD)
        .unwrap_or_else(|e| panic!("parse failed: {}", e.to_string()));
    assert_eq!(code, "1000");
    assert_eq!(amount, 5000);
    assert_eq!(memo, None);
}

#[test]
fn parse_entry_arg_with_memo() {
    let (code, amount, memo) = parse_entry_arg("1000:50:Net pay", Currency::USD)
        .unwrap_or_else(|e| panic!("parse failed: {}", e.to_string()));
    assert_eq!(code, "1000");
    assert_eq!(amount, 5000);
    assert_eq!(memo.as_deref(), Some("Net pay"));
}

#[test]
fn parse_entry_arg_with_empty_memo() {
    let (code, amount, memo) = parse_entry_arg("1000:50:", Currency::USD)
        .unwrap_or_else(|e| panic!("parse failed: {}", e.to_string()));
    assert_eq!(code, "1000");
    assert_eq!(amount, 5000);
    assert_eq!(memo, None);
}

#[test]
fn parse_entry_arg_invalid_format() {
    let result = parse_entry_arg("1000-50", Currency::USD);
    assert!(result.is_err());
}

#[test]
fn parse_entry_arg_empty_code() {
    let result = parse_entry_arg(":50", Currency::USD);
    assert!(result.is_err());
}

#[test]
fn parse_amount_negative_and_garbage() {
    assert_eq!(parse_amount_to_minor("-12.34", Currency::USD).ok(), Some(-1234));
    assert!(parse_amount_to_minor("abc", Currency::USD).is_err());
    assert!(parse_amount_to_minor("1.2.3", Currency::USD).is_err());
}

#[test]
fn parse_entry_arg_invalid_format_message() {
    match parse_entry_arg("1000-50", Currency::USD) {
        Err(e) => {
            assert_eq!(e.exit_code(), 2);
            assert_eq!(
                e.to_string(),
                "invalid entry format '1000-50': expected 'account_code:amount' or 'account_code:amount:memo'"
            );
        }
        Ok(_) => panic!("expected an error"),
    }
}
