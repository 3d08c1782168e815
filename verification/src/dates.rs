//! Civil dates for the membership records: the list API stores a
//! member's expiry as an ISO `YYYY-MM-DD` string, and membership runs in
//! whole years.
//!
//! A date is held as plain year, month and day with the Gregorian
//! validity rules as its invariant; only asking for the current date
//! needs the clock and the time-zone table.

use vstd::prelude::*;

use chrono::Datelike;
use crate::jsonenc::{dec_digit, dec_digit_char};
use crate::strutil::{chars_string, str_chars};

verus! {

/// The Gregorian leap-year rule.
pub open spec fn is_leap_year(y: int) -> bool {
    (y % 4 == 0 && y % 100 != 0) || y % 400 == 0
}

/// How many days the month has in the year.
pub open spec fn days_in_month(y: int, m: int) -> int {
    if m == 4 || m == 6 || m == 9 || m == 11 {
        30
    } else if m == 2 {
        if is_leap_year(y) {
            29
        } else {
            28
        }
    } else {
        31
    }
}

/// Whether year, month and day name a day of the Gregorian calendar.
pub open spec fn valid_date(y: int, m: int, d: int) -> bool {
    1 <= m <= 12 && 1 <= d <= days_in_month(y, m)
}

/// A civil date: year, month and day, valid per [`valid_date`].
#[derive(Debug, Clone, Copy, PartialEq, Eq, Structural)]
pub struct Date {
    pub year: i32,
    pub month: u8,
    pub day: u8,
}

/// Why a date string was rejected.
#[derive(Debug, PartialEq, Eq, Structural)]
pub enum DateError {
    /// The text is not four digits, dash, two digits, dash, two digits.
    BadShape,
    /// The text is shaped right but names no calendar day.
    InvalidDate,
}

/// Whether a character is a decimal digit.
pub open spec fn is_dec_digit(c: char) -> bool {
    48 <= c as u32 <= 57
}

/// The value of a decimal digit character.
pub open spec fn digit_val(c: char) -> int {
    c as u32 - 48
}

/// A number as exactly two digits, zero padded.
pub open spec fn pad2(n: int) -> Seq<char> {
    seq![dec_digit(n / 10 % 10), dec_digit(n % 10)]
}

/// A number as exactly four digits, zero padded.
pub open spec fn pad4(n: int) -> Seq<char> {
    seq![dec_digit(n / 1000 % 10), dec_digit(n / 100 % 10), dec_digit(n / 10 % 10), dec_digit(
        n % 10,
    )]
}

/// The list API's date format: `YYYY-MM-DD`.
pub open spec fn mailchimp_date_text(y: int, m: int, d: int) -> Seq<char> {
    pad4(y) + "-"@ + pad2(m) + "-"@ + pad2(d)
}

/// Whether the text has the `YYYY-MM-DD` shape.
pub open spec fn date_text_shape(s: Seq<char>) -> bool {
    &&& s.len() == 10
    &&& is_dec_digit(s[0])
    &&& is_dec_digit(s[1])
    &&& is_dec_digit(s[2])
    &&& is_dec_digit(s[3])
    &&& s[4] == '-'
    &&& is_dec_digit(s[5])
    &&& is_dec_digit(s[6])
    &&& s[7] == '-'
    &&& is_dec_digit(s[8])
    &&& is_dec_digit(s[9])
}

/// The year the text names.
pub open spec fn year_of_text(s: Seq<char>) -> int {
    ((digit_val(s[0]) * 10 + digit_val(s[1])) * 10 + digit_val(s[2])) * 10 + digit_val(s[3])
}

/// The month the text names.
pub open spec fn month_of_text(s: Seq<char>) -> int {
    digit_val(s[5]) * 10 + digit_val(s[6])
}

/// The day the text names.
pub open spec fn day_of_text(s: Seq<char>) -> int {
    digit_val(s[8]) * 10 + digit_val(s[9])
}

/// The value of a digit character, or `None` for any other character.
fn dec_digit_val(c: char) -> (r: Option<u8>)
    ensures
        r is Some <==> is_dec_digit(c),
        r matches Some(v) ==> v == digit_val(c),
{
    match c {
        '0' => Some(0),
        '1' => Some(1),
        '2' => Some(2),
        '3' => Some(3),
        '4' => Some(4),
        '5' => Some(5),
        '6' => Some(6),
        '7' => Some(7),
        '8' => Some(8),
        '9' => Some(9),
        _ => None,
    }
}

/// How many days the month has in the year.
fn days_in_month_x(y: i32, m: u8) -> (r: u8)
    requires
        0 <= y,
        1 <= m <= 12,
    ensures
        r == days_in_month(y as int, m as int),
{
    if m == 4 || m == 6 || m == 9 || m == 11 {
        30
    } else if m == 2 {
        if (y % 4 == 0 && y % 100 != 0) || y % 400 == 0 {
            29
        } else {
            28
        }
    } else {
        31
    }
}

impl Date {
    /// The date's invariant: it names a day of the Gregorian calendar.
    pub open spec fn wf(self) -> bool {
        valid_date(self.year as int, self.month as int, self.day as int)
    }

    /// Render the date in the list API's `YYYY-MM-DD` format. Four digits
    /// hold years up to 9999.
    pub fn to_mailchimp_format(&self) -> (r: String)
        requires
            self.wf(),
            0 <= self.year <= 9999,
        ensures
            r@ == mailchimp_date_text(self.year as int, self.month as int, self.day as int),
    {
        let y = self.year;
        let m = self.month;
        let d = self.day;
        proof {
            reveal_strlit("-");
        }
        let mut out: Vec<char> = Vec::new();
        out.push(dec_digit_char((y / 1000 % 10) as u8));
        out.push(dec_digit_char((y / 100 % 10) as u8));
        out.push(dec_digit_char((y / 10 % 10) as u8));
        out.push(dec_digit_char((y % 10) as u8));
        out.push('-');
        out.push(dec_digit_char(m / 10 % 10));
        out.push(dec_digit_char(m % 10));
        out.push('-');
        out.push(dec_digit_char(d / 10 % 10));
        out.push(dec_digit_char(d % 10));
        assert(out@ =~= mailchimp_date_text(self.year as int, self.month as int, self.day as int));
        chars_string(&out)
    }
}

/// Parse a date in the list API's `YYYY-MM-DD` format. Succeeds exactly
/// when the text has the shape and names a day of the calendar.
pub fn parse_mailchimp_date(iso_date: &str) -> (r: Result<Date, DateError>)
    ensures
        r is Ok <==> (date_text_shape(iso_date@) && valid_date(
            year_of_text(iso_date@),
            month_of_text(iso_date@),
            day_of_text(iso_date@),
        )),
        r matches Ok(d) ==> {
            &&& d.wf()
            &&& d.year == year_of_text(iso_date@)
            &&& d.month == month_of_text(iso_date@)
            &&& d.day == day_of_text(iso_date@)
        },
        r matches Err(e) ==> (e is BadShape <==> !date_text_shape(iso_date@)),
{
    let sv = str_chars(iso_date);
    if sv.len() != 10 {
        return Err(DateError::BadShape);
    }
    if sv[4] != '-' || sv[7] != '-' {
        return Err(DateError::BadShape);
    }
    let y0 = dec_digit_val(sv[0]);
    let y1 = dec_digit_val(sv[1]);
    let y2 = dec_digit_val(sv[2]);
    let y3 = dec_digit_val(sv[3]);
    let m0 = dec_digit_val(sv[5]);
    let m1 = dec_digit_val(sv[6]);
    let d0 = dec_digit_val(sv[8]);
    let d1 = dec_digit_val(sv[9]);
    match (y0, y1, y2, y3, m0, m1, d0, d1) {
        (
            Some(y0),
            Some(y1),
            Some(y2),
            Some(y3),
            Some(m0),
            Some(m1),
            Some(d0),
            Some(d1),
        ) => {
            let year: i32 = ((y0 as i32 * 10 + y1 as i32) * 10 + y2 as i32) * 10 + y3 as i32;
            let month: u8 = m0 * 10 + m1;
            let day: u8 = d0 * 10 + d1;
            if month < 1 || month > 12 {
                return Err(DateError::InvalidDate);
            }
            if day < 1 || day > days_in_month_x(year, month) {
                return Err(DateError::InvalidDate);
            }
            Ok(Date { year, month, day })
        },
        _ => Err(DateError::BadShape),
    }
}

/// Move a date a number of years, keeping month and day; the one day
/// that can vanish — the leap day — falls back to the last of February.
pub fn safe_add_year(date: Date, years: i32) -> (r: Date)
    requires
        date.wf(),
        0 <= date.year + years <= 9999,
    ensures
        r.wf(),
        r.year == date.year + years,
        valid_date(date.year + years, date.month as int, date.day as int) ==> (r.month
            == date.month && r.day == date.day),
        !valid_date(date.year + years, date.month as int, date.day as int) ==> (r.month == 2
            && r.day == 28),
{
    let target_year = date.year + years;
    if date.day <= days_in_month_x(target_year, date.month) {
        Date { year: target_year, month: date.month, day: date.day }
    } else {
        Date { year: target_year, month: 2, day: 28 }
    }
}

/// A decimal digit character carries its value.
proof fn lemma_dec_digit_val(n: int)
    requires
        0 <= n <= 9,
    ensures
        is_dec_digit(dec_digit(n)),
        digit_val(dec_digit(n)) == n,
{
}

/// Law (round trip): rendering a date in the list API's format and
/// reading the text back yields the same year, month and day — the
/// formatter and the parser agree on the wire format.
pub proof fn lemma_date_text_round_trip(y: int, m: int, d: int)
    requires
        valid_date(y, m, d),
        0 <= y <= 9999,
    ensures
        date_text_shape(mailchimp_date_text(y, m, d)),
        year_of_text(mailchimp_date_text(y, m, d)) == y,
        month_of_text(mailchimp_date_text(y, m, d)) == m,
        day_of_text(mailchimp_date_text(y, m, d)) == d,
{
    reveal_strlit("-");
    let s = mailchimp_date_text(y, m, d);
    assert(s.len() == 10);
    lemma_dec_digit_val(y / 1000 % 10);
    lemma_dec_digit_val(y / 100 % 10);
    lemma_dec_digit_val(y / 10 % 10);
    lemma_dec_digit_val(y % 10);
    lemma_dec_digit_val(m / 10 % 10);
    lemma_dec_digit_val(m % 10);
    lemma_dec_digit_val(d / 10 % 10);
    lemma_dec_digit_val(d % 10);
    assert(s[0] == dec_digit(y / 1000 % 10));
    assert(s[1] == dec_digit(y / 100 % 10));
    assert(s[2] == dec_digit(y / 10 % 10));
    assert(s[3] == dec_digit(y % 10));
    assert(s[4] == '-');
    assert(s[5] == dec_digit(m / 10 % 10));
    assert(s[6] == dec_digit(m % 10));
    assert(s[7] == '-');
    assert(s[8] == dec_digit(d / 10 % 10));
    assert(s[9] == dec_digit(d % 10));
    assert(y == (y / 10) * 10 + y % 10);
    assert(y / 10 == (y / 100) * 10 + (y / 10) % 10);
    assert(y / 100 == (y / 1000) * 10 + (y / 100) % 10);
    assert(y / 1000 % 10 == y / 1000);
    assert(m == (m / 10) * 10 + m % 10);
    assert(m / 10 % 10 == m / 10);
    assert(d == (d / 10) * 10 + d % 10);
    assert(d / 10 % 10 == d / 10);
}

/// Relies on chrono's Local::now, with_timezone and date_naive, and on
/// chrono-tz's America/Vancouver table: the current civil date in the
/// Pacific time zone. Of a clock reading, only validity holds of every
/// outcome.
#[verifier::external_body]
pub fn today_ppt() -> (r: Date)
    ensures
        r.wf(),
{
    let d = chrono::Local::now().with_timezone(&chrono_tz::America::Vancouver).date_naive();
    Date { year: d.year(), month: d.month() as u8, day: d.day() as u8 }
}

} // verus!
