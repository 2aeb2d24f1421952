//! Calendar dates and the dual-format date decoder.
//!
//! The FLEX dialect writes dates either as ISO `YYYY-MM-DD` or as the
//! 8-digit compact `YYYYMMDD`; both forms must decode to the same value.
//! Dates are modeled as plain year/month/day fields with a real calendar
//! validity invariant (month lengths, leap years), so nothing downstream can
//! hold an impossible date.

use vstd::prelude::*;

verus! {

/// A calendar date.
#[derive(Debug, Clone, Copy, PartialEq, Eq, Hash, Structural)]
pub struct Date {
    /// Year, 0 through 9999 (the textual forms carry exactly four digits).
    pub year: u32,
    /// Month, 1 through 12.
    pub month: u32,
    /// Day of month, 1 through the month's length.
    pub day: u32,
}

/// Gregorian leap-year rule.
pub open spec fn is_leap_year(y: int) -> bool {
    (y % 4 == 0 && y % 100 != 0) || y % 400 == 0
}

/// Number of days in a month.
pub open spec fn days_in_month(y: int, m: int) -> int {
    if m == 2 {
        if is_leap_year(y) {
            29
        } else {
            28
        }
    } else if m == 4 || m == 6 || m == 9 || m == 11 {
        30
    } else {
        31
    }
}

/// A real calendar date with a four-digit year.
pub open spec fn valid_date(y: int, m: int, d: int) -> bool {
    &&& 0 <= y <= 9999
    &&& 1 <= m <= 12
    &&& 1 <= d <= days_in_month(y, m)
}

impl Date {
    /// The type's invariant: the fields name a real calendar date.
    pub open spec fn wf(self) -> bool {
        valid_date(self.year as int, self.month as int, self.day as int)
    }
}

/// Whether `c` is an ASCII decimal digit.
pub open spec fn is_digit(c: char) -> bool {
    '0' <= c && c <= '9'
}

/// Numeric value of a digit character.
pub open spec fn dval(c: char) -> int {
    c as int - '0' as int
}

/// The digit character for a value 0 through 9.
pub open spec fn digit_char(n: int) -> char {
    if n == 0 {
        '0'
    } else if n == 1 {
        '1'
    } else if n == 2 {
        '2'
    } else if n == 3 {
        '3'
    } else if n == 4 {
        '4'
    } else if n == 5 {
        '5'
    } else if n == 6 {
        '6'
    } else if n == 7 {
        '7'
    } else if n == 8 {
        '8'
    } else {
        '9'
    }
}

/// `digit_char` and `dval` are inverse on single digits.
pub proof fn lemma_digit_char_val(n: int)
    requires
        0 <= n <= 9,
    ensures
        is_digit(digit_char(n)),
        dval(digit_char(n)) == n,
{
}

/// The date a `YYYY-MM-DD` text denotes, reading the digit positions.
pub open spec fn iso_fields(s: Seq<char>) -> (int, int, int) {
    (
        dval(s[0]) * 1000 + dval(s[1]) * 100 + dval(s[2]) * 10 + dval(s[3]),
        dval(s[5]) * 10 + dval(s[6]),
        dval(s[8]) * 10 + dval(s[9]),
    )
}

/// The date a `YYYYMMDD` text denotes, reading the digit positions.
pub open spec fn compact_fields(s: Seq<char>) -> (int, int, int) {
    (
        dval(s[0]) * 1000 + dval(s[1]) * 100 + dval(s[2]) * 10 + dval(s[3]),
        dval(s[4]) * 10 + dval(s[5]),
        dval(s[6]) * 10 + dval(s[7]),
    )
}

/// Whether `s` has the shape `YYYY-MM-DD`.
pub open spec fn is_iso_shape(s: Seq<char>) -> bool {
    &&& s.len() == 10
    &&& is_digit(s[0]) && is_digit(s[1]) && is_digit(s[2]) && is_digit(s[3])
    &&& s[4] == '-'
    &&& is_digit(s[5]) && is_digit(s[6])
    &&& s[7] == '-'
    &&& is_digit(s[8]) && is_digit(s[9])
}

/// Whether `s` has the shape `YYYYMMDD`.
pub open spec fn is_compact_shape(s: Seq<char>) -> bool {
    &&& s.len() == 8
    &&& forall|i: int| 0 <= i < 8 ==> is_digit(#[trigger] s[i])
}

/// What the date decoder returns on `s`: the ISO form is tried first, then
/// the compact form; a shape match with an impossible calendar date, or any
/// other text, fails.
pub open spec fn spec_parse_date(s: Seq<char>) -> Option<Date> {
    if is_iso_shape(s) {
        let (y, m, d) = iso_fields(s);
        if valid_date(y, m, d) {
            Some(Date { year: y as u32, month: m as u32, day: d as u32 })
        } else {
            None
        }
    } else if is_compact_shape(s) {
        let (y, m, d) = compact_fields(s);
        if valid_date(y, m, d) {
            Some(Date { year: y as u32, month: m as u32, day: d as u32 })
        } else {
            None
        }
    } else {
        None
    }
}

/// Digit test on a character.
pub fn digit(c: char) -> (r: bool)
    ensures
        r == is_digit(c),
{
    '0' <= c && c <= '9'
}

/// Numeric value of a digit character.
pub fn digit_val(c: char) -> (r: u32)
    requires
        is_digit(c),
    ensures
        r == dval(c),
{
    (c as u32) - ('0' as u32)
}

/// Whether the year/month/day triple is a real calendar date.
pub fn check_valid_date(y: u32, m: u32, d: u32) -> (r: bool)
    ensures
        r == valid_date(y as int, m as int, d as int),
{
    if !(y <= 9999 && 1 <= m && m <= 12 && 1 <= d) {
        return false;
    }
    let dim: u32 = if m == 2 {
        if (y % 4 == 0 && y % 100 != 0) || y % 400 == 0 {
            29
        } else {
            28
        }
    } else if m == 4 || m == 6 || m == 9 || m == 11 {
        30
    } else {
        31
    };
    d <= dim
}

/// Parses a date in either accepted textual form.
///
/// Tries the ISO shape `YYYY-MM-DD` first, then the compact `YYYYMMDD`;
/// both shapes are checked against the real calendar.
pub fn parse_flex_date(s: &Vec<char>) -> (r: Option<Date>)
    ensures
        r == spec_parse_date(s@),
        r is Some ==> r->0.wf(),
{
    if s.len() == 10 {
        if digit(s[0]) && digit(s[1]) && digit(s[2]) && digit(s[3]) && s[4] == '-' && digit(s[5])
            && digit(s[6]) && s[7] == '-' && digit(s[8]) && digit(s[9]) {
            let y = digit_val(s[0]) * 1000 + digit_val(s[1]) * 100 + digit_val(s[2]) * 10
                + digit_val(s[3]);
            let m = digit_val(s[5]) * 10 + digit_val(s[6]);
            let d = digit_val(s[8]) * 10 + digit_val(s[9]);
            if check_valid_date(y, m, d) {
                return Some(Date { year: y, month: m, day: d });
            }
        }
        return None;
    }
    if s.len() == 8 {
        let mut i: usize = 0;
        while i < 8
            invariant
                s@.len() == 8,
                i <= 8,
                forall|k: int| 0 <= k < i ==> is_digit(#[trigger] s@[k]),
            decreases 8 - i,
        {
            if !digit(s[i]) {
                return None;
            }
            i += 1;
        }
        let y = digit_val(s[0]) * 1000 + digit_val(s[1]) * 100 + digit_val(s[2]) * 10 + digit_val(
            s[3],
        );
        let m = digit_val(s[4]) * 10 + digit_val(s[5]);
        let d = digit_val(s[6]) * 10 + digit_val(s[7]);
        if check_valid_date(y, m, d) {
            return Some(Date { year: y, month: m, day: d });
        }
        return None;
    }
    None
}

/// The ISO text `YYYY-MM-DD` for a field triple, four/two/two digits wide.
pub open spec fn iso_text_of(y: int, m: int, d: int) -> Seq<char> {
    seq![
        digit_char(y / 1000 % 10),
        digit_char(y / 100 % 10),
        digit_char(y / 10 % 10),
        digit_char(y % 10),
        '-',
        digit_char(m / 10 % 10),
        digit_char(m % 10),
        '-',
        digit_char(d / 10 % 10),
        digit_char(d % 10),
    ]
}

/// The compact text `YYYYMMDD` for a field triple.
pub open spec fn compact_text_of(y: int, m: int, d: int) -> Seq<char> {
    seq![
        digit_char(y / 1000 % 10),
        digit_char(y / 100 % 10),
        digit_char(y / 10 % 10),
        digit_char(y % 10),
        digit_char(m / 10 % 10),
        digit_char(m % 10),
        digit_char(d / 10 % 10),
        digit_char(d % 10),
    ]
}

/// The decoder is form-agnostic: for every field triple in digit range, the
/// ISO text and the compact text decode to the same result, and when the
/// triple is a real calendar date that result is exactly that date.
#[verifier::rlimit(60)]
pub proof fn lemma_date_form_agnostic(y: int, m: int, d: int)
    requires
        0 <= y <= 9999,
        0 <= m <= 99,
        0 <= d <= 99,
    ensures
        spec_parse_date(iso_text_of(y, m, d)) == spec_parse_date(compact_text_of(y, m, d)),
        valid_date(y, m, d) ==> spec_parse_date(iso_text_of(y, m, d)) == Some(
            Date { year: y as u32, month: m as u32, day: d as u32 },
        ),
{
    let iso = iso_text_of(y, m, d);
    let cpt = compact_text_of(y, m, d);
    lemma_digit_char_val(y / 1000 % 10);
    lemma_digit_char_val(y / 100 % 10);
    lemma_digit_char_val(y / 10 % 10);
    lemma_digit_char_val(y % 10);
    lemma_digit_char_val(m / 10 % 10);
    lemma_digit_char_val(m % 10);
    lemma_digit_char_val(d / 10 % 10);
    lemma_digit_char_val(d % 10);
    assert(is_iso_shape(iso));
    assert(is_compact_shape(cpt));
    assert((y / 1000 % 10) * 1000 + (y / 100 % 10) * 100 + (y / 10 % 10) * 10 + y % 10 == y);
    assert((m / 10 % 10) * 10 + m % 10 == m);
    assert((d / 10 % 10) * 10 + d % 10 == d);
    assert(iso_fields(iso) == (y, m, d));
    assert(compact_fields(cpt) == (y, m, d));
}


/// Calendar order on dates.
pub open spec fn spec_date_le(a: Date, b: Date) -> bool {
    if a.year != b.year {
        a.year < b.year
    } else if a.month != b.month {
        a.month < b.month
    } else {
        a.day <= b.day
    }
}

impl Date {
    /// Whether this date is on or before `other`.
    pub fn le(&self, other: &Date) -> (r: bool)
        ensures
            r == spec_date_le(*self, *other),
    {
        if self.year != other.year {
            self.year < other.year
        } else if self.month != other.month {
            self.month < other.month
        } else {
            self.day <= other.day
        }
    }

    /// Formats the date as `YYYY-MM-DD`.
    pub fn to_text(&self) -> (r: String)
        requires
            self.wf(),
        ensures
            r@ == iso_text_of(self.year as int, self.month as int, self.day as int),
    {
        let y = self.year;
        let m = self.month;
        let d = self.day;
        let mut v: Vec<char> = Vec::new();
        v.push(digit_char_exec(y / 1000 % 10));
        v.push(digit_char_exec(y / 100 % 10));
        v.push(digit_char_exec(y / 10 % 10));
        v.push(digit_char_exec(y % 10));
        v.push('-');
        v.push(digit_char_exec(m / 10 % 10));
        v.push(digit_char_exec(m % 10));
        v.push('-');
        v.push(digit_char_exec(d / 10 % 10));
        v.push(digit_char_exec(d % 10));
        proof {
            assert(v@ =~= iso_text_of(self.year as int, self.month as int, self.day as int));
        }
        crate::chars::string_from_chars(&v)
    }
}

/// The digit character of a value below ten.
fn digit_char_exec(n: u32) -> (r: char)
    requires
        n <= 9,
    ensures
        r == digit_char(n as int),
{
    if n == 0 {
        '0'
    } else if n == 1 {
        '1'
    } else if n == 2 {
        '2'
    } else if n == 3 {
        '3'
    } else if n == 4 {
        '4'
    } else if n == 5 {
        '5'
    } else if n == 6 {
        '6'
    } else if n == 7 {
        '7'
    } else if n == 8 {
        '8'
    } else {
        '9'
    }
}
} // verus!
