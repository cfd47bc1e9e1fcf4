//! Proleptic Gregorian calendar dates in years 1 to 9999, modelled by a
//! day number counted from 1 January of year 1 (day 0). All arithmetic
//! that the liturgical calendar needs — validity, day-number
//! conversion in both directions, weekdays — is defined here.

use vstd::prelude::*;

verus! {

/// A day of the week.
#[derive(Debug, Clone, Copy, PartialEq, Eq)]
pub enum Weekday {
    Mon,
    Tue,
    Wed,
    Thu,
    Fri,
    Sat,
    Sun,
}

/// Weekdays numbered from Monday = 0 to Sunday = 6, the remainder of
/// a day number modulo 7 (1 January of year 1 was a Monday).
pub open spec fn weekday_num(w: Weekday) -> int {
    match w {
        Weekday::Mon => 0,
        Weekday::Tue => 1,
        Weekday::Wed => 2,
        Weekday::Thu => 3,
        Weekday::Fri => 4,
        Weekday::Sat => 5,
        Weekday::Sun => 6,
    }
}

/// Gregorian leap years.
pub open spec fn is_leap_year(y: int) -> bool {
    (y % 4 == 0 && y % 100 != 0) || y % 400 == 0
}

/// The number of days of a month; 0 outside 1 to 12.
pub open spec fn month_days(y: int, m: int) -> int {
    if m == 1 {
        31
    } else if m == 2 {
        if is_leap_year(y) {
            29
        } else {
            28
        }
    } else if m == 3 {
        31
    } else if m == 4 {
        30
    } else if m == 5 {
        31
    } else if m == 6 {
        30
    } else if m == 7 {
        31
    } else if m == 8 {
        31
    } else if m == 9 {
        30
    } else if m == 10 {
        31
    } else if m == 11 {
        30
    } else if m == 12 {
        31
    } else {
        0
    }
}

/// The number of days of a year.
pub open spec fn year_days(y: int) -> int {
    if is_leap_year(y) {
        366
    } else {
        365
    }
}

/// Days of year `y` before month `m`.
pub open spec fn days_before_month(y: int, m: int) -> int
    decreases m,
{
    if m <= 1 {
        0
    } else {
        days_before_month(y, m - 1) + month_days(y, m - 1)
    }
}

/// Days before 1 January of year `y`, counted from 1 January of year 1.
pub open spec fn days_before_year(y: int) -> int
    decreases y,
{
    if y <= 1 {
        0
    } else {
        days_before_year(y - 1) + year_days(y - 1)
    }
}

/// The day number of a calendar day: days elapsed since 1 January of
/// year 1.
pub open spec fn day_number(y: int, m: int, d: int) -> int {
    days_before_year(y) + days_before_month(y, m) + d - 1
}

/// A legal month/day combination of year `y`.
pub open spec fn valid_md(y: int, m: int, d: int) -> bool {
    1 <= m <= 12 && 1 <= d <= month_days(y, m)
}

/// The years this model covers.
pub open spec fn year_in_range(y: int) -> bool {
    1 <= y <= 9999
}

/// The days before a month never exceed the days of the year up to
/// month 13, which equal the year's length.
pub proof fn lemma_days_before_month_13(y: int)
    ensures
        days_before_month(y, 13) == year_days(y),
{
    reveal_with_fuel(days_before_month, 13);
}

/// `days_before_year` grows with the year.
pub proof fn lemma_days_before_year_monotone(a: int, b: int)
    requires
        1 <= a <= b,
    ensures
        days_before_year(a) <= days_before_year(b),
    decreases b,
{
    if a < b {
        lemma_days_before_year_monotone(a, b - 1);
    }
}

/// `days_before_month` grows with the month.
pub proof fn lemma_days_before_month_monotone(y: int, a: int, b: int)
    requires
        1 <= a <= b,
    ensures
        days_before_month(y, a) <= days_before_month(y, b),
    decreases b,
{
    if a < b {
        lemma_days_before_month_monotone(y, a, b - 1);
    }
}

/// The day number of a legal date of a supported year stays within the
/// supported range.
pub proof fn lemma_day_number_range(y: int, m: int, d: int)
    requires
        year_in_range(y),
        valid_md(y, m, d),
    ensures
        0 <= day_number(y, m, d) <= day_number(9999, 12, 31),
{
    lemma_days_before_year_bounds(y);
    lemma_days_before_month_monotone(y, 1, m);
    lemma_days_before_month_13(y);
    lemma_days_before_month_monotone(y, m + 1, 13);
    assert(days_before_month(y, m + 1) == days_before_month(y, m) + month_days(y, m));
    assert(day_number(y, m, d) < days_before_year(y) + year_days(y));
    assert(days_before_year(y) + year_days(y) == days_before_year(y + 1));
    lemma_days_before_year_monotone(y + 1, 10000);
    assert(days_before_year(10000) == days_before_year(9999) + year_days(9999));
    lemma_days_before_month_13(9999);
    assert(days_before_month(9999, 13) == days_before_month(9999, 12) + month_days(9999, 12));
}

/// The largest supported day number is far below `u32::MAX`.
pub proof fn lemma_max_day_number()
    ensures
        day_number(9999, 12, 31) < 3700000,
{
    lemma_days_before_year_bounds(9999);
    lemma_days_before_month_13(9999);
    lemma_days_before_month_monotone(9999, 12, 13);
}

/// Bounds of `days_before_year`: every year has 365 or 366 days.
pub proof fn lemma_days_before_year_bounds(y: int)
    requires
        y >= 1,
    ensures
        365 * (y - 1) <= days_before_year(y) <= 366 * (y - 1),
    decreases y,
{
    if y > 1 {
        lemma_days_before_year_bounds(y - 1);
    }
}

/// A calendar date, kept valid and within years 1 to 9999.
#[derive(Debug, Clone, Copy, PartialEq, Eq)]
pub struct Date {
    year: i32,
    month: u8,
    day: u8,
}

/// The mathematical value of a `Date`: its year, month and day.
pub ghost struct Ymd {
    pub y: int,
    pub m: int,
    pub d: int,
}

/// The day number of a date value.
pub open spec fn date_dn(v: Ymd) -> int {
    day_number(v.y, v.m, v.d)
}

impl View for Date {
    type V = Ymd;

    closed spec fn view(&self) -> Ymd {
        Ymd { y: self.year as int, m: self.month as int, d: self.day as int }
    }
}

impl Date {
    /// Every `Date` value is a legal calendar day of a supported year.
    #[verifier::type_invariant]
    pub open spec fn date_inv(self) -> bool {
        year_in_range(self@.y) && valid_md(self@.y, self@.m, self@.d)
    }

    /// A date from year, month and day; `None` when the combination is
    /// not a legal calendar day of years 1 to 9999.
    pub fn from_ymd(year: i32, month: u8, day: u8) -> (r: Option<Date>)
        ensures
            r is Some <==> year_in_range(year as int) && valid_md(
                year as int,
                month as int,
                day as int,
            ),
            r is Some ==> r.unwrap()@ == (Ymd { y: year as int, m: month as int, d: day as int }),
    {
        if year < 1 || year > 9999 || month < 1 || month > 12 {
            return None;
        }
        let md = Self::month_len(year, month);
        if day < 1 || day > md {
            return None;
        }
        Some(Date { year, month, day })
    }

    /// The year of the date.
    pub fn year(&self) -> (r: i32)
        ensures
            r as int == self@.y,
    {
        self.year
    }

    /// The month of the date, 1 to 12.
    pub fn month(&self) -> (r: u8)
        ensures
            r as int == self@.m,
    {
        self.month
    }

    /// The day of the month, starting at 1.
    pub fn day(&self) -> (r: u8)
        ensures
            r as int == self@.d,
    {
        self.day
    }

    /// Whether the date's year is a leap year.
    pub fn is_leap(year: i32) -> (r: bool)
        ensures
            r == is_leap_year(year as int),
    {
        (year % 4 == 0 && year % 100 != 0) || year % 400 == 0
    }

    /// The length of a month of a year; 0 outside 1 to 12.
    pub fn month_len(year: i32, month: u8) -> (r: u8)
        ensures
            r as int == month_days(year as int, month as int),
    {
        match month {
            1 => 31,
            2 => if Self::is_leap(year) {
                29
            } else {
                28
            },
            3 => 31,
            4 => 30,
            5 => 31,
            6 => 30,
            7 => 31,
            8 => 31,
            9 => 30,
            10 => 31,
            11 => 30,
            12 => 31,
            _ => 0,
        }
    }

    /// The length of a year in days.
    pub fn year_len(year: i32) -> (r: u16)
        ensures
            r as int == year_days(year as int),
    {
        if Self::is_leap(year) {
            366
        } else {
            365
        }
    }

    /// The date's day number: days elapsed since 1 January of year 1.
    pub fn to_day_number(&self) -> (n: u32)
        ensures
            n as int == date_dn(self@),
            n as int <= day_number(9999, 12, 31),
    {
        proof {
            use_type_invariant(&*self);
            lemma_day_number_range(self@.y, self@.m, self@.d);
        }
        let mut y: i32 = 1;
        let mut acc: u32 = 0;
        while y < self.year
            invariant
                1 <= y <= self.year <= 9999,
                acc as int == days_before_year(y as int),
                acc <= 366 * (y - 1),
            decreases self.year - y,
        {
            acc = acc + Self::year_len(y) as u32;
            y = y + 1;
        }
        let mut m: u8 = 1;
        while m < self.month
            invariant
                1 <= m <= self.month <= 12,
                self.year == y,
                1 <= y <= 9999,
                acc as int == days_before_year(y as int) + days_before_month(y as int, m as int),
                acc <= 366 * (y - 1) + 31 * (m - 1),
            decreases self.month - m,
        {
            acc = acc + Self::month_len(y, m) as u32;
            m = m + 1;
        }
        acc + (self.day - 1) as u32
    }

    /// The date with the given day number; `None` past 31 December of
    /// year 9999.
    pub fn from_day_number(n: u32) -> (r: Option<Date>)
        ensures
            r is Some <==> n as int <= day_number(9999, 12, 31),
            r is Some ==> date_dn(r.unwrap()@) == n as int,
    {
        let mut y: i32 = 1;
        let mut acc: u32 = 0;
        let mut fits: bool = Self::year_len(y) as u32 <= n;
        while y < 9999 && fits
            invariant
                1 <= y <= 9999,
                acc as int == days_before_year(y as int),
                acc <= n,
                acc <= 366 * (y - 1),
                fits == (acc + year_days(y as int) <= n),
            decreases 9999 - y,
        {
            acc = acc + Self::year_len(y) as u32;
            y = y + 1;
            fits = acc + Self::year_len(y) as u32 <= n;
        }
        if fits {
            // Day numbers past the last supported year.
            proof {
                reveal_with_fuel(days_before_month, 13);
            }
            return None;
        }
        let rem: u32 = n - acc;
        proof {
            lemma_days_before_month_13(y as int);
        }
        let mut m: u8 = 1;
        let mut acc2: u32 = 0;
        let mut md: u8 = Self::month_len(y, m);
        while acc2 + md as u32 <= rem
            invariant
                1 <= m <= 12,
                acc2 as int == days_before_month(y as int, m as int),
                acc2 <= rem,
                (rem as int) < year_days(y as int),
                days_before_month(y as int, 13) == year_days(y as int),
                md as int == month_days(y as int, m as int),
                m == 12 ==> acc2 + md > rem,
            decreases 12 - m,
        {
            acc2 = acc2 + md as u32;
            m = m + 1;
            md = Self::month_len(y, m);
            proof {
                if m == 12 {
                    assert(days_before_month(y as int, 13) == days_before_month(y as int, 12)
                        + month_days(y as int, 12));
                }
            }
        }
        let day: u8 = (rem - acc2) as u8 + 1;
        proof {
            reveal_with_fuel(days_before_month, 13);
            lemma_days_before_year_monotone(y as int + 1, 10000);
            assert(days_before_year(10000) == days_before_year(9999) + year_days(9999));
        }
        Some(Date { year: y, month: m, day })
    }

    /// The weekday of the date.
    pub fn weekday(&self) -> (w: Weekday)
        ensures
            weekday_num(w) == date_dn(self@) % 7,
    {
        let n = self.to_day_number();
        match n % 7 {
            0 => Weekday::Mon,
            1 => Weekday::Tue,
            2 => Weekday::Wed,
            3 => Weekday::Thu,
            4 => Weekday::Fri,
            5 => Weekday::Sat,
            _ => Weekday::Sun,
        }
    }
}

} // verus!
