//! Calendar dates of transactions.
use vstd::prelude::*;
use crate::text::{int_decimal, padded_digits};

verus! {

/// Whether `y` is a leap year in the proleptic Gregorian calendar.
pub open spec fn is_leap(y: int) -> bool {
    y % 4 == 0 && (y % 100 != 0 || y % 400 == 0)
}

/// The number of days in month `m` of year `y`.
pub open spec fn days_in_month(y: int, m: int) -> int {
    if m == 2 {
        if is_leap(y) {
            29
        } else {
            28
        }
    } else if m == 4 || m == 6 || m == 9 || m == 11 {
        30
    } else {
        31
    }
}

/// Whether `(y, m, d)` is a calendar date within the supported year range
/// (-262143 to 262142).
pub open spec fn valid_ymd(y: int, m: int, d: int) -> bool {
    -262143 <= y <= 262142 && 1 <= m <= 12 && 1 <= d <= days_in_month(y, m)
}

/// The `YYYY-MM-DD` rendering of a date; years outside `0..=9999` carry an
/// explicit sign and at least four digits.
pub open spec fn date_text(y: int, m: int, d: int) -> Seq<char> {
    (if 0 <= y <= 9999 {
        padded_digits(y as nat, 4)
    } else if y < 0 {
        seq!['-'] + padded_digits((-y) as nat, 4)
    } else {
        seq!['+'] + padded_digits(y as nat, 4)
    }) + seq!['-'] + padded_digits(m as nat, 2) + seq!['-'] + padded_digits(d as nat, 2)
}

/// Whether `(y, m, d)` names a calendar date (`chrono::NaiveDate::from_ymd_opt`).
#[verifier::external_body]
fn ymd_is_valid(year: i32, month: u32, day: u32) -> (b: bool)
    ensures
        b == valid_ymd(year as int, month as int, day as int),
{
    chrono::NaiveDate::from_ymd_opt(year, month, day).is_some()
}

/// The display form of a valid date (`Display` of `chrono::NaiveDate`).
#[verifier::external_body]
fn ymd_display(year: i32, month: u32, day: u32) -> (s: String)
    requires
        valid_ymd(year as int, month as int, day as int),
    ensures
        s@ == date_text(year as int, month as int, day as int),
{
    match chrono::NaiveDate::from_ymd_opt(year, month, day) {
        Some(d) => d.to_string(),
        None => String::new(),
    }
}

/// A calendar date. Dates are ordered chronologically.
#[derive(Debug, Clone, Copy, PartialEq, Eq, Structural, PartialOrd, Ord, Hash)]
pub struct Date {
    year: i32,
    month: u32,
    day: u32,
}

/// The mathematical content of a date.
pub struct DateView {
    /// The year.
    pub year: int,
    /// The month, `1..=12`.
    pub month: int,
    /// The day of the month.
    pub day: int,
}

impl View for Date {
    type V = DateView;

    closed spec fn view(&self) -> DateView {
        DateView { year: self.year as int, month: self.month as int, day: self.day as int }
    }
}

/// Whether date `a` is on or before date `b`.
pub open spec fn date_le(a: DateView, b: DateView) -> bool {
    a.year < b.year || (a.year == b.year && (a.month < b.month || (a.month == b.month && a.day
        <= b.day)))
}

impl Date {
    #[verifier::type_invariant]
    spec fn inv(self) -> bool {
        valid_ymd(self.year as int, self.month as int, self.day as int)
    }

    /// Makes a date from year, month and day, or `None` when no such
    /// calendar date exists (or the year is out of range).
    pub fn from_ymd_opt(year: i32, month: u32, day: u32) -> (r: Option<Date>)
        ensures
            r is Some <==> valid_ymd(year as int, month as int, day as int),
            r matches Some(d) ==> d@ == (DateView { year: year as int, month: month as int, day: day as int }),
    {
        if ymd_is_valid(year, month, day) {
            Some(Date { year, month, day })
        } else {
            None
        }
    }

    /// Makes a date from components already known to name a calendar date.
    pub(crate) fn from_valid_ymd(year: i32, month: u32, day: u32) -> (d: Date)
        requires
            valid_ymd(year as int, month as int, day as int),
        ensures
            d@ == (DateView { year: year as int, month: month as int, day: day as int }),
    {
        Date { year, month, day }
    }

    /// The year.
    pub fn year(&self) -> (y: i32)
        ensures
            y == self@.year,
    {
        self.year
    }

    /// The month, `1..=12`.
    pub fn month(&self) -> (m: u32)
        ensures
            m == self@.month,
    {
        self.month
    }

    /// The day of the month.
    pub fn day(&self) -> (d: u32)
        ensures
            d == self@.day,
    {
        self.day
    }

    /// Whether this date is on or before `other`.
    pub fn on_or_before(&self, other: &Date) -> (b: bool)
        ensures
            b == date_le(self@, other@),
    {
        self.year < other.year || (self.year == other.year && (self.month < other.month || (
        self.month == other.month && self.day <= other.day)))
    }

    /// The `YYYY-MM-DD` form of this date.
    pub fn to_string(&self) -> (s: String)
        ensures
            s@ == date_text(self@.year, self@.month, self@.day),
    {
        proof {
            use_type_invariant(self);
        }
        ymd_display(self.year, self.month, self.day)
    }
}

} // verus!
