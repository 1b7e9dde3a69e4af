//! Calendar dates and their ten-character ISO `YYYY-MM-DD` text form.
//!
//! The storage layer keeps every date as ISO text, so the library needs both
//! directions: formatting a date for a statement parameter and parsing the
//! text that a query hands back. Both directions are verified against the
//! same specification, and `lemma_iso_round_trip` shows that a well-formed
//! date survives the trip through its text form unchanged.

use vstd::prelude::*;

verus! {

/// A calendar date in the proleptic Gregorian calendar, restricted to the
/// years 0..=9999 that the ten-character ISO form can carry.
#[derive(Clone, Copy, Debug, PartialEq, Eq, Structural)]
pub struct Date {
    pub year: u32,
    pub month: u32,
    pub day: u32,
}

pub open spec fn is_leap_year(y: int) -> bool {
    y % 4 == 0 && (y % 100 != 0 || y % 400 == 0)
}

pub open spec fn days_in_month(y: int, m: int) -> int {
    if m == 2 {
        if is_leap_year(y) {
            29
        } else {
            28
        }
    } else if m == 4 || m == 6 || m == 9 || m == 11 {
        30
    } else {
        31
    }
}

impl Date {
    /// The date names a real calendar day and fits the four-digit year form.
    pub open spec fn wf(self) -> bool {
        &&& self.year <= 9999
        &&& 1 <= self.month <= 12
        &&& 1 <= self.day <= days_in_month(self.year as int, self.month as int)
    }

    /// Chronological order: by year, then month, then day.
    pub open spec fn spec_le(self, other: Date) -> bool {
        ||| self.year < other.year
        ||| (self.year == other.year && self.month < other.month)
        ||| (self.year == other.year && self.month == other.month && self.day <= other.day)
    }

    pub fn from_ymd(year: u32, month: u32, day: u32) -> (r: Option<Date>)
        ensures
            r is Some <==> (Date { year, month, day }).wf(),
            r matches Some(d) ==> d == (Date { year, month, day }),
    {
        if year <= 9999 && 1 <= month && month <= 12 && 1 <= day && day <= days_in_month_of(
            year,
            month,
        ) {
            Some(Date { year, month, day })
        } else {
            None
        }
    }

    pub fn le(&self, other: &Date) -> (r: bool)
        ensures
            r == self.spec_le(*other),
    {
        if self.year != other.year {
            self.year < other.year
        } else if self.month != other.month {
            self.month < other.month
        } else {
            self.day <= other.day
        }
    }

    /// Formats the date as ISO `YYYY-MM-DD` text.
    pub fn to_iso(&self) -> (s: String)
        requires
            self.wf(),
        ensures
            s@ == iso_chars(*self),
    {
        let mut s = String::new();
        s.append(digit_str(self.year / 1000));
        s.append(digit_str((self.year / 100) % 10));
        s.append(digit_str((self.year / 10) % 10));
        s.append(digit_str(self.year % 10));
        s.append(dash_str());
        s.append(digit_str(self.month / 10));
        s.append(digit_str(self.month % 10));
        s.append(dash_str());
        s.append(digit_str(self.day / 10));
        s.append(digit_str(self.day % 10));
        proof {
            assert(s@ =~= iso_chars(*self));
        }
        s
    }

    /// Parses ISO `YYYY-MM-DD` text; any other shape, or a month/day pair
    /// that names no real calendar day, yields `None`.
    pub fn parse_iso(s: &str) -> (r: Option<Date>)
        ensures
            r == spec_parse_date(s@),
    {
        if s.unicode_len() != 10 {
            return None;
        }
        if s.get_char(4) != '-' || s.get_char(7) != '-' {
            return None;
        }
        let y0 = match char_digit(s.get_char(0)) {
            Some(v) => v,
            None => { return None },
        };
        let y1 = match char_digit(s.get_char(1)) {
            Some(v) => v,
            None => { return None },
        };
        let y2 = match char_digit(s.get_char(2)) {
            Some(v) => v,
            None => { return None },
        };
        let y3 = match char_digit(s.get_char(3)) {
            Some(v) => v,
            None => { return None },
        };
        let m0 = match char_digit(s.get_char(5)) {
            Some(v) => v,
            None => { return None },
        };
        let m1 = match char_digit(s.get_char(6)) {
            Some(v) => v,
            None => { return None },
        };
        let d0 = match char_digit(s.get_char(8)) {
            Some(v) => v,
            None => { return None },
        };
        let d1 = match char_digit(s.get_char(9)) {
            Some(v) => v,
            None => { return None },
        };
        let year = y0 * 1000 + y1 * 100 + y2 * 10 + y3;
        let month = m0 * 10 + m1;
        let day = d0 * 10 + d1;
        Date::from_ymd(year, month, day)
    }
}

fn days_in_month_of(y: u32, m: u32) -> (r: u32)
    requires
        1 <= m <= 12,
    ensures
        r as int == days_in_month(y as int, m as int),
{
    if m == 2 {
        if y % 4 == 0 && (y % 100 != 0 || y % 400 == 0) {
            29
        } else {
            28
        }
    } else if m == 4 || m == 6 || m == 9 || m == 11 {
        30
    } else {
        31
    }
}

pub open spec fn spec_digit_char(v: int) -> char {
    if v == 0 {
        '0'
    } else if v == 1 {
        '1'
    } else if v == 2 {
        '2'
    } else if v == 3 {
        '3'
    } else if v == 4 {
        '4'
    } else if v == 5 {
        '5'
    } else if v == 6 {
        '6'
    } else if v == 7 {
        '7'
    } else if v == 8 {
        '8'
    } else {
        '9'
    }
}

pub open spec fn is_digit_char(c: char) -> bool {
    c == '0' || c == '1' || c == '2' || c == '3' || c == '4' || c == '5' || c == '6' || c == '7'
        || c == '8' || c == '9'
}

pub open spec fn digit_val(c: char) -> int {
    if c == '0' {
        0
    } else if c == '1' {
        1
    } else if c == '2' {
        2
    } else if c == '3' {
        3
    } else if c == '4' {
        4
    } else if c == '5' {
        5
    } else if c == '6' {
        6
    } else if c == '7' {
        7
    } else if c == '8' {
        8
    } else {
        9
    }
}

/// The ten characters of the date's ISO `YYYY-MM-DD` form.
pub open spec fn iso_chars(d: Date) -> Seq<char> {
    seq![
        spec_digit_char(d.year as int / 1000),
        spec_digit_char((d.year as int / 100) % 10),
        spec_digit_char((d.year as int / 10) % 10),
        spec_digit_char(d.year as int % 10),
        '-',
        spec_digit_char(d.month as int / 10),
        spec_digit_char(d.month as int % 10),
        '-',
        spec_digit_char(d.day as int / 10),
        spec_digit_char(d.day as int % 10),
    ]
}

/// The text has the ISO shape and names a real calendar day.
pub open spec fn parses_as_date(s: Seq<char>) -> bool {
    &&& s.len() == 10
    &&& is_digit_char(s[0]) && is_digit_char(s[1]) && is_digit_char(s[2]) && is_digit_char(s[3])
    &&& s[4] == '-'
    &&& is_digit_char(s[5]) && is_digit_char(s[6])
    &&& s[7] == '-'
    &&& is_digit_char(s[8]) && is_digit_char(s[9])
    &&& parsed_date(s).wf()
}

/// The date that the digits of a ten-character ISO text spell out.
pub open spec fn parsed_date(s: Seq<char>) -> Date {
    Date {
        year: (digit_val(s[0]) * 1000 + digit_val(s[1]) * 100 + digit_val(s[2]) * 10 + digit_val(
            s[3],
        )) as u32,
        month: (digit_val(s[5]) * 10 + digit_val(s[6])) as u32,
        day: (digit_val(s[8]) * 10 + digit_val(s[9])) as u32,
    }
}

pub open spec fn spec_parse_date(s: Seq<char>) -> Option<Date> {
    if parses_as_date(s) {
        Some(parsed_date(s))
    } else {
        None
    }
}

fn char_digit(c: char) -> (r: Option<u32>)
    ensures
        r is Some <==> is_digit_char(c),
        r matches Some(v) ==> v == digit_val(c),
{
    match c {
        '0' => Some(0),
        '1' => Some(1),
        '2' => Some(2),
        '3' => Some(3),
        '4' => Some(4),
        '5' => Some(5),
        '6' => Some(6),
        '7' => Some(7),
        '8' => Some(8),
        '9' => Some(9),
        _ => None,
    }
}

fn digit_str(v: u32) -> (s: &'static str)
    requires
        v < 10,
    ensures
        s@.len() == 1,
        s@[0] == spec_digit_char(v as int),
{
    if v == 0 {
        proof {
            reveal_strlit("0");
        }
        "0"
    } else if v == 1 {
        proof {
            reveal_strlit("1");
        }
        "1"
    } else if v == 2 {
        proof {
            reveal_strlit("2");
        }
        "2"
    } else if v == 3 {
        proof {
            reveal_strlit("3");
        }
        "3"
    } else if v == 4 {
        proof {
            reveal_strlit("4");
        }
        "4"
    } else if v == 5 {
        proof {
            reveal_strlit("5");
        }
        "5"
    } else if v == 6 {
        proof {
            reveal_strlit("6");
        }
        "6"
    } else if v == 7 {
        proof {
            reveal_strlit("7");
        }
        "7"
    } else if v == 8 {
        proof {
            reveal_strlit("8");
        }
        "8"
    } else {
        proof {
            reveal_strlit("9");
        }
        "9"
    }
}

fn dash_str() -> (s: &'static str)
    ensures
        s@.len() == 1,
        s@[0] == '-',
{
    proof {
        reveal_strlit("-");
    }
    "-"
}

/// Every digit character spells the value it was made from.
proof fn lemma_digit_char_val(v: int)
    requires
        0 <= v < 10,
    ensures
        is_digit_char(spec_digit_char(v)),
        digit_val(spec_digit_char(v)) == v,
{
}

/// A well-formed date survives the round trip through its ISO text form.
pub proof fn lemma_iso_round_trip(d: Date)
    requires
        d.wf(),
    ensures
        spec_parse_date(iso_chars(d)) == Some(d),
{
    let s = iso_chars(d);
    let y = d.year as int;
    let m = d.month as int;
    let dd = d.day as int;
    lemma_digit_char_val(y / 1000);
    lemma_digit_char_val((y / 100) % 10);
    lemma_digit_char_val((y / 10) % 10);
    lemma_digit_char_val(y % 10);
    lemma_digit_char_val(m / 10);
    lemma_digit_char_val(m % 10);
    lemma_digit_char_val(dd / 10);
    lemma_digit_char_val(dd % 10);
    assert((y / 1000) * 1000 + ((y / 100) % 10) * 100 + ((y / 10) % 10) * 10 + y % 10 == y) by {
        lemma_four_digit_split(y);
    }
    assert((m / 10) * 10 + m % 10 == m);
    assert((dd / 10) * 10 + dd % 10 == dd);
    assert(parsed_date(s) == d);
}

/// A number below 10000 is the weighted sum of its four decimal digits.
proof fn lemma_four_digit_split(y: int)
    requires
        0 <= y <= 9999,
    ensures
        (y / 1000) * 1000 + ((y / 100) % 10) * 100 + ((y / 10) % 10) * 10 + y % 10 == y,
{
    assert((y / 1000) * 1000 + ((y / 100) % 10) * 100 + ((y / 10) % 10) * 10 + y % 10 == y)
        by (nonlinear_arith)
        requires
            0 <= y <= 9999,
    ;
}

} // verus!
