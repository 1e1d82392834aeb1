//! ISO 4217 currencies with their minor-unit precision.
use vstd::prelude::*;
use vstd::std_specs::cmp::PartialEqSpecImpl;
use crate::text::{is_upper, str_from_utf8};

verus! {

/// Error type for currency operations.
#[derive(Debug, Clone, PartialEq, Eq)]
#[non_exhaustive]
pub enum CurrencyError {
    /// The provided string is not exactly 3 uppercase ASCII letters.
    InvalidCode { value: String },
    /// The code has valid format but is not a recognized ISO 4217 currency.
    UnknownCode { code: String },
}

/// The message of a currency error.
pub open spec fn currency_error_text(e: CurrencyError) -> Seq<char> {
    match e {
        CurrencyError::InvalidCode { value } => "invalid currency code: \""@ + value@
            + "\" (expected 3 uppercase ASCII letters)"@,
        CurrencyError::UnknownCode { code } => "unknown currency code: "@ + code@,
    }
}

impl CurrencyError {
    /// The human-readable message for this error.
    pub fn to_string(&self) -> (s: String)
        ensures
            s@ == currency_error_text(*self),
    {
        match self {
            CurrencyError::InvalidCode { value } => {
                let mut s = "invalid currency code: \"".to_string();
                s.append(value.as_str());
                s.append("\" (expected 3 uppercase ASCII letters)");
                s
            },
            CurrencyError::UnknownCode { code } => {
                let mut s = "unknown currency code: ".to_string();
                s.append(code.as_str());
                s
            },
        }
    }
}

/// A currency code outside the built-in table, with its minor-unit count.
///
/// Values of this type never hold one of the built-in code/precision pairs,
/// so that each currency has exactly one representation.
#[derive(Debug, Clone, Copy, Hash)]
pub struct CustomCurrency {
    code: [u8; 3],
    minor_units: u8,
}

/// An ISO 4217 currency code with its associated minor unit precision.
#[derive(Debug, Clone, Copy, Hash)]
pub enum Currency {
    /// US Dollar
    USD,
    /// Euro
    EUR,
    /// British Pound Sterling
    GBP,
    /// Japanese Yen
    JPY,
    /// Swiss Franc
    CHF,
    /// Canadian Dollar
    CAD,
    /// Australian Dollar
    AUD,
    /// Bahraini Dinar (3 decimal places)
    BHD,
    /// Kuwaiti Dinar (3 decimal places)
    KWD,
    /// Mexican Peso
    MXN,
    /// Any other code and precision.
    Other(CustomCurrency),
}

/// The three ASCII bytes of a code given as characters.
pub open spec fn code3(a: char, b: char, c: char) -> Seq<u8> {
    seq![a as u8, b as u8, c as u8]
}

/// The built-in currency with this code and precision, if there is one.
pub open spec fn builtin_currency(code: Seq<u8>, minor_units: u8) -> Option<Currency> {
    if code == code3('U', 'S', 'D') && minor_units == 2 {
        Some(Currency::USD)
    } else if code == code3('E', 'U', 'R') && minor_units == 2 {
        Some(Currency::EUR)
    } else if code == code3('G', 'B', 'P') && minor_units == 2 {
        Some(Currency::GBP)
    } else if code == code3('J', 'P', 'Y') && minor_units == 0 {
        Some(Currency::JPY)
    } else if code == code3('C', 'H', 'F') && minor_units == 2 {
        Some(Currency::CHF)
    } else if code == code3('C', 'A', 'D') && minor_units == 2 {
        Some(Currency::CAD)
    } else if code == code3('A', 'U', 'D') && minor_units == 2 {
        Some(Currency::AUD)
    } else if code == code3('B', 'H', 'D') && minor_units == 3 {
        Some(Currency::BHD)
    } else if code == code3('K', 'W', 'D') && minor_units == 3 {
        Some(Currency::KWD)
    } else if code == code3('M', 'X', 'N') && minor_units == 2 {
        Some(Currency::MXN)
    } else {
        None
    }
}

impl CustomCurrency {
    #[verifier::type_invariant]
    spec fn inv(self) -> bool {
        builtin_currency(self.code@, self.minor_units) is None
    }

    /// The code bytes of this currency.
    pub closed spec fn spec_code(self) -> Seq<u8> {
        self.code@
    }

    /// The minor-unit count of this currency.
    pub closed spec fn spec_minor_units(self) -> u8 {
        self.minor_units
    }
}

impl Currency {
    /// The three code bytes of this currency.
    pub open spec fn spec_code(self) -> Seq<u8> {
        match self {
            Currency::USD => code3('U', 'S', 'D'),
            Currency::EUR => code3('E', 'U', 'R'),
            Currency::GBP => code3('G', 'B', 'P'),
            Currency::JPY => code3('J', 'P', 'Y'),
            Currency::CHF => code3('C', 'H', 'F'),
            Currency::CAD => code3('C', 'A', 'D'),
            Currency::AUD => code3('A', 'U', 'D'),
            Currency::BHD => code3('B', 'H', 'D'),
            Currency::KWD => code3('K', 'W', 'D'),
            Currency::MXN => code3('M', 'X', 'N'),
            Currency::Other(c) => c.spec_code(),
        }
    }

    /// The number of minor-unit decimal places of this currency.
    pub open spec fn spec_minor_units(self) -> u8 {
        match self {
            Currency::JPY => 0,
            Currency::BHD | Currency::KWD => 3,
            Currency::Other(c) => c.spec_minor_units(),
            _ => 2,
        }
    }

    /// Creates a `Currency` from a 3-byte code and a minor-unit count.
    pub fn new(code: [u8; 3], minor_units: u8) -> (c: Currency)
        ensures
            c.spec_code() == code@,
            c.spec_minor_units() == minor_units,
            c == (match builtin_currency(code@, minor_units) {
                Some(b) => b,
                None => c,
            }),
    {
        let a = code[0];
        let b = code[1];
        let d = code[2];
        assert(code@ == seq![a, b, d]);
        if a == 85 && b == 83 && d == 68 && minor_units == 2 {
            Currency::USD
        } else if a == 69 && b == 85 && d == 82 && minor_units == 2 {
            Currency::EUR
        } else if a == 71 && b == 66 && d == 80 && minor_units == 2 {
            Currency::GBP
        } else if a == 74 && b == 80 && d == 89 && minor_units == 0 {
            Currency::JPY
        } else if a == 67 && b == 72 && d == 70 && minor_units == 2 {
            Currency::CHF
        } else if a == 67 && b == 65 && d == 68 && minor_units == 2 {
            Currency::CAD
        } else if a == 65 && b == 85 && d == 68 && minor_units == 2 {
            Currency::AUD
        } else if a == 66 && b == 72 && d == 68 && minor_units == 3 {
            Currency::BHD
        } else if a == 75 && b == 87 && d == 68 && minor_units == 3 {
            Currency::KWD
        } else if a == 77 && b == 88 && d == 78 && minor_units == 2 {
            Currency::MXN
        } else {
            Currency::Other(CustomCurrency { code, minor_units })
        }
    }

    /// Creates a `Currency` from a string code such as `"USD"`.
    ///
    /// The code must be exactly three uppercase ASCII letters naming one of
    /// the built-in currencies.
    pub fn from_code(code: &str) -> (r: Result<Currency, CurrencyError>)
        ensures
            !is_code_text(code@) ==> (r matches Err(CurrencyError::InvalidCode { value })
                && value@ == code@),
            is_code_text(code@) ==> match builtin_by_code(code3(code@[0], code@[1], code@[2])) {
                Some(b) => r == Ok::<Currency, CurrencyError>(b),
                None => r matches Err(CurrencyError::UnknownCode { code: c }) && c@ == code@,
            },
    {
        let n = code.unicode_len();
        if n != 3 {
            return Err(CurrencyError::InvalidCode { value: code.to_owned() });
        }
        let c0 = code.get_char(0);
        let c1 = code.get_char(1);
        let c2 = code.get_char(2);
        if !('A' <= c0 && c0 <= 'Z' && 'A' <= c1 && c1 <= 'Z' && 'A' <= c2 && c2 <= 'Z') {
            proof {
                if is_code_text(code@) {
                    assert(is_upper(code@[0]) && is_upper(code@[1]) && is_upper(code@[2]));
                }
            }
            return Err(CurrencyError::InvalidCode { value: code.to_owned() });
        }
        assert(is_code_text(code@)) by {
            assert forall|i: int| 0 <= i < 3 implies is_upper(#[trigger] code@[i]) by {
                if i == 0 {
                } else if i == 1 {
                } else {
                }
            }
        }
        let a = c0 as u8;
        let b = c1 as u8;
        let d = c2 as u8;
        assert(code3(code@[0], code@[1], code@[2]) == seq![a, b, d]);
        if a == 85 && b == 83 && d == 68 {
            Ok(Currency::USD)
        } else if a == 69 && b == 85 && d == 82 {
            Ok(Currency::EUR)
        } else if a == 71 && b == 66 && d == 80 {
            Ok(Currency::GBP)
        } else if a == 74 && b == 80 && d == 89 {
            Ok(Currency::JPY)
        } else if a == 67 && b == 72 && d == 70 {
            Ok(Currency::CHF)
        } else if a == 67 && b == 65 && d == 68 {
            Ok(Currency::CAD)
        } else if a == 65 && b == 85 && d == 68 {
            Ok(Currency::AUD)
        } else if a == 66 && b == 72 && d == 68 {
            Ok(Currency::BHD)
        } else if a == 75 && b == 87 && d == 68 {
            Ok(Currency::KWD)
        } else if a == 77 && b == 88 && d == 78 {
            Ok(Currency::MXN)
        } else {
            Err(CurrencyError::UnknownCode { code: code.to_owned() })
        }
    }

    /// Returns the currency code as a string slice.
    pub fn code(&self) -> (s: &str)
        ensures
            s@ == currency_code_text(*self),
    {
        match self {
            Currency::USD => "USD",
            Currency::EUR => "EUR",
            Currency::GBP => "GBP",
            Currency::JPY => "JPY",
            Currency::CHF => "CHF",
            Currency::CAD => "CAD",
            Currency::AUD => "AUD",
            Currency::BHD => "BHD",
            Currency::KWD => "KWD",
            Currency::MXN => "MXN",
            Currency::Other(c) => match str_from_utf8(vstd::array::array_as_slice(&c.code)) {
                Some(t) => t,
                None => "???",
            },
        }
    }

    /// The currency code as an owned string (its display form).
    pub fn to_string(&self) -> (s: String)
        ensures
            s@ == currency_code_text(*self),
    {
        self.code().to_owned()
    }

    /// Returns the 3-byte currency code.
    pub fn code_bytes(&self) -> (b: [u8; 3])
        ensures
            b@ == self.spec_code(),
    {
        match self {
            Currency::USD => [85, 83, 68],
            Currency::EUR => [69, 85, 82],
            Currency::GBP => [71, 66, 80],
            Currency::JPY => [74, 80, 89],
            Currency::CHF => [67, 72, 70],
            Currency::CAD => [67, 65, 68],
            Currency::AUD => [65, 85, 68],
            Currency::BHD => [66, 72, 68],
            Currency::KWD => [75, 87, 68],
            Currency::MXN => [77, 88, 78],
            Currency::Other(c) => c.code,
        }
    }

    /// Returns the number of minor unit decimal places for this currency.
    pub fn minor_units(&self) -> (m: u8)
        ensures
            m == self.spec_minor_units(),
    {
        match self {
            Currency::JPY => 0,
            Currency::BHD | Currency::KWD => 3,
            Currency::Other(c) => c.minor_units,
            _ => 2,
        }
    }
}


/// The built-in currency with this code, if there is one.
pub open spec fn builtin_by_code(code: Seq<u8>) -> Option<Currency> {
    if code == code3('U', 'S', 'D') {
        Some(Currency::USD)
    } else if code == code3('E', 'U', 'R') {
        Some(Currency::EUR)
    } else if code == code3('G', 'B', 'P') {
        Some(Currency::GBP)
    } else if code == code3('J', 'P', 'Y') {
        Some(Currency::JPY)
    } else if code == code3('C', 'H', 'F') {
        Some(Currency::CHF)
    } else if code == code3('C', 'A', 'D') {
        Some(Currency::CAD)
    } else if code == code3('A', 'U', 'D') {
        Some(Currency::AUD)
    } else if code == code3('B', 'H', 'D') {
        Some(Currency::BHD)
    } else if code == code3('K', 'W', 'D') {
        Some(Currency::KWD)
    } else if code == code3('M', 'X', 'N') {
        Some(Currency::MXN)
    } else {
        None
    }
}

/// Whether `s` is exactly three uppercase ASCII letters.
/// The built-in currency a code text names, if any.
pub open spec fn currency_named(s: Seq<char>) -> Option<Currency> {
    if is_code_text(s) {
        builtin_by_code(code3(s[0], s[1], s[2]))
    } else {
        None
    }
}

pub open spec fn is_code_text(s: Seq<char>) -> bool {
    s.len() == 3 && forall|i: int| 0 <= i < 3 ==> is_upper(#[trigger] s[i])
}

/// The textual code of a currency.
pub open spec fn currency_code_text(c: Currency) -> Seq<char> {
    match c {
        Currency::USD => "USD"@,
        Currency::EUR => "EUR"@,
        Currency::GBP => "GBP"@,
        Currency::JPY => "JPY"@,
        Currency::CHF => "CHF"@,
        Currency::CAD => "CAD"@,
        Currency::AUD => "AUD"@,
        Currency::BHD => "BHD"@,
        Currency::KWD => "KWD"@,
        Currency::MXN => "MXN"@,
        Currency::Other(cc) => if vstd::utf8::valid_utf8(cc.spec_code()) {
            vstd::utf8::decode_utf8(cc.spec_code())
        } else {
            "???"@
        },
    }
}

impl PartialEq for Currency {
    fn eq(&self, other: &Currency) -> (r: bool) {
        let a = self.code_bytes();
        let b = other.code_bytes();
        let r = a[0] == b[0] && a[1] == b[1] && a[2] == b[2] && self.minor_units()
            == other.minor_units();
        proof {
            if a[0] == b[0] && a[1] == b[1] && a[2] == b[2] {
                assert(a@ =~= b@);
            }
        }
        r
    }
}

impl PartialEqSpecImpl for Currency {
    open spec fn obeys_eq_spec() -> bool {
        true
    }

    open spec fn eq_spec(&self, other: &Currency) -> bool {
        self.spec_code() == other.spec_code() && self.spec_minor_units() == other.spec_minor_units()
    }
}

impl Eq for Currency {
}


impl core::str::FromStr for Currency {
    type Err = CurrencyError;

    fn from_str(s: &str) -> (r: Result<Currency, CurrencyError>)
        ensures
            !is_code_text(s@) ==> (r matches Err(CurrencyError::InvalidCode { value })
                && value@ == s@),
            is_code_text(s@) ==> match builtin_by_code(code3(s@[0], s@[1], s@[2])) {
                Some(b) => r == Ok::<Currency, CurrencyError>(b),
                None => r matches Err(CurrencyError::UnknownCode { code: c }) && c@ == s@,
            },
    {
        Currency::from_code(s)
    }
}

} // verus!
