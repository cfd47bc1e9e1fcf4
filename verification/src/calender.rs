//! The liturgical calendar: Easter, dates derived from it by day and
//! week offsets or by weekday search, the fixed feasts of a year, and
//! the mystery category assigned to each calendar day.

use vstd::prelude::*;

use crate::date::{date_dn, day_number, weekday_num, year_in_range, Date, Weekday};
use crate::rosary::Mysteries;
use crate::tui::{e, ErrorString};

verus! {

/// What `bdays::easter::easter_num_days_from_ce` returns for a year:
/// the day count of Easter Sunday from 1 January of year 1 (counted as
/// day 1), or nothing for years it refuses.
pub uninterp spec fn easter_rata(year: int) -> Option<int>;

/// Relies on bdays::easter::easter_num_days_from_ce: the Gregorian
/// Easter of a year, counted in days from 1 January of year 1 (day 1),
/// depends on the year alone, and years before 1582 are refused.
#[verifier::external_body]
fn easter_days_from_ce(year: i32) -> (r: Option<i32>)
    ensures
        r is Some <==> easter_rata(year as int) is Some,
        r is Some ==> Some(r.unwrap() as int) == easter_rata(year as int),
        year < 1582 ==> r is None,
{
    bdays::easter::easter_num_days_from_ce(year).ok()
}

/// The day number of Easter Sunday of a year, in this crate's count
/// (days elapsed since 1 January of year 1).
pub open spec fn easter_dn(year: int) -> int {
    easter_rata(year).unwrap() - 1
}

/// Easter of the year both exists and falls within the supported date
/// range.
pub open spec fn pascha_ok(year: int) -> bool {
    &&& easter_rata(year) is Some
    &&& 0 <= easter_dn(year) <= day_number(9999, 12, 31)
}

/// Easter Sunday of the given year.
pub fn pascha(year: i32) -> (r: Result<Date, ErrorString>)
    ensures
        r is Ok <==> pascha_ok(year as int),
        r is Ok ==> date_dn(r.unwrap()@) == easter_dn(year as int),
        r is Err ==> r.unwrap_err()@ == "Can't calculate Easter"@,
{
    match easter_days_from_ce(year) {
        Some(rata) => {
            if rata < 1 {
                Err(e("Can't calculate Easter"))
            } else {
                match Date::from_day_number((rata - 1) as u32) {
                    Some(d) => Ok(d),
                    None => Err(e("Can't calculate Easter")),
                }
            }
        },
        None => Err(e("Can't calculate Easter")),
    }
}

/// The date the given number of days after `date`.
pub fn days_after(date: Date, days: i64) -> (r: Result<Date, ErrorString>)
    ensures
        r is Ok <==> 0 <= date_dn(date@) + days <= day_number(9999, 12, 31),
        r is Ok ==> date_dn(r.unwrap()@) == date_dn(date@) + days,
        r is Err ==> r.unwrap_err()@ == "Can't calculate date"@,
{
    let dn = date.to_day_number();
    let target: i128 = dn as i128 + days as i128;
    if target < 0 {
        return Err(e("Can't calculate date"));
    }
    if target > u32::MAX as i128 {
        proof {
            crate::date::lemma_max_day_number();
        }
        return Err(e("Can't calculate date"));
    }
    match Date::from_day_number(target as u32) {
        Some(d) => Ok(d),
        None => Err(e("Can't calculate date")),
    }
}

/// The date the given number of days before `date`.
pub fn days_before(date: Date, days: i64) -> (r: Result<Date, ErrorString>)
    ensures
        r is Ok <==> 0 <= date_dn(date@) - days <= day_number(9999, 12, 31),
        r is Ok ==> date_dn(r.unwrap()@) == date_dn(date@) - days,
        r is Err ==> r.unwrap_err()@ == "Can't calculate date"@,
{
    let dn = date.to_day_number();
    let target: i128 = dn as i128 - days as i128;
    if target < 0 {
        return Err(e("Can't calculate date"));
    }
    if target > u32::MAX as i128 {
        proof {
            crate::date::lemma_max_day_number();
        }
        return Err(e("Can't calculate date"));
    }
    match Date::from_day_number(target as u32) {
        Some(d) => Ok(d),
        None => Err(e("Can't calculate date")),
    }
}

/// The date the given number of weeks after `date`.
pub fn weeks_after(date: Date, weeks: i64) -> (r: Result<Date, ErrorString>)
    ensures
        r is Ok <==> 0 <= date_dn(date@) + 7 * weeks <= day_number(9999, 12, 31),
        r is Ok ==> date_dn(r.unwrap()@) == date_dn(date@) + 7 * weeks,
        r is Err ==> r.unwrap_err()@ == "Can't calculate date"@,
{
    let dn = date.to_day_number();
    let target: i128 = dn as i128 + 7 * (weeks as i128);
    if target < 0 {
        return Err(e("Can't calculate date"));
    }
    if target > u32::MAX as i128 {
        proof {
            crate::date::lemma_max_day_number();
        }
        return Err(e("Can't calculate date"));
    }
    match Date::from_day_number(target as u32) {
        Some(d) => Ok(d),
        None => Err(e("Can't calculate date")),
    }
}

/// The date the given number of weeks before `date`.
pub fn weeks_before(date: Date, weeks: i64) -> (r: Result<Date, ErrorString>)
    ensures
        r is Ok <==> 0 <= date_dn(date@) - 7 * weeks <= day_number(9999, 12, 31),
        r is Ok ==> date_dn(r.unwrap()@) == date_dn(date@) - 7 * weeks,
        r is Err ==> r.unwrap_err()@ == "Can't calculate date"@,
{
    let dn = date.to_day_number();
    let target: i128 = dn as i128 - 7 * (weeks as i128);
    if target < 0 {
        return Err(e("Can't calculate date"));
    }
    if target > u32::MAX as i128 {
        proof {
            crate::date::lemma_max_day_number();
        }
        return Err(e("Can't calculate date"));
    }
    match Date::from_day_number(target as u32) {
        Some(d) => Ok(d),
        None => Err(e("Can't calculate date")),
    }
}

/// The nearest day strictly before `dn` whose day number is congruent
/// to `w` modulo 7: where the previous day with that weekday falls.
pub open spec fn prev_weekday_dn(dn: int, w: int) -> int {
    dn - 1 - ((dn - 1 - w) % 7)
}

/// The nearest day strictly after `dn` congruent to `w` modulo 7.
pub open spec fn next_weekday_dn(dn: int, w: int) -> int {
    dn + 1 + ((w - dn - 1) % 7)
}

/// The nearest date strictly before `date` that falls on the given
/// weekday; found scanning one day at a time, as the calendar defines
/// it.
pub fn weekday_before(date: Date, weekday: Weekday) -> (r: Result<Date, ErrorString>)
    ensures
        r is Ok <==> prev_weekday_dn(date_dn(date@), weekday_num(weekday)) >= 0,
        r is Ok ==> date_dn(r.unwrap()@) == prev_weekday_dn(date_dn(date@), weekday_num(weekday)),
        r is Err ==> r.unwrap_err()@ == "Can't calculate date"@,
{
    let dn = date.to_day_number();
    let w = weekday_target(weekday);
    let ghost p = prev_weekday_dn(dn as int, w as int);
    proof {
        let a = dn as int - 1 - w as int;
        vstd::arithmetic::div_mod::lemma_mod_division_less_than_divisor(a, 7);
        vstd::arithmetic::div_mod::lemma_fundamental_div_mod(a, 7);
        assert(p == w + 7 * (a / 7));
        vstd::arithmetic::div_mod::lemma_mod_multiples_vanish(a / 7, w as int, 7);
        vstd::arithmetic::div_mod::lemma_small_mod(w as nat, 7);
        assert(p % 7 == w as int);
    }
    let mut t: i64 = dn as i64 - 1;
    loop
        invariant
            p == prev_weekday_dn(date_dn(date@), weekday_num(weekday)),
            p <= t <= dn - 1,
            p >= dn - 7,
            p % 7 == w as int,
            0 <= w < 7,
            dn as int <= day_number(9999, 12, 31),
        decreases t - p,
    {
        if t < 0 {
            return Err(e("Can't calculate date"));
        }
        if t % 7 == w as i64 {
            proof {
                lemma_same_weekday_close(p, t as int);
            }
            match Date::from_day_number(t as u32) {
                Some(d) => {
                    return Ok(d);
                },
                None => {
                    return Err(e("Can't calculate date"));
                },
            }
        }
        t = t - 1;
    }
}

/// The nearest date strictly after `date` that falls on the given
/// weekday.
pub fn weekday_after(date: Date, weekday: Weekday) -> (r: Result<Date, ErrorString>)
    ensures
        r is Ok <==> next_weekday_dn(date_dn(date@), weekday_num(weekday)) <= day_number(
            9999,
            12,
            31,
        ),
        r is Ok ==> date_dn(r.unwrap()@) == next_weekday_dn(date_dn(date@), weekday_num(weekday)),
        r is Err ==> r.unwrap_err()@ == "Can't calculate date"@,
{
    let dn = date.to_day_number();
    let w = weekday_target(weekday);
    let ghost p = next_weekday_dn(dn as int, w as int);
    proof {
        let a = w as int - dn as int - 1;
        vstd::arithmetic::div_mod::lemma_mod_division_less_than_divisor(a, 7);
        vstd::arithmetic::div_mod::lemma_fundamental_div_mod(a, 7);
        assert(p == w - 7 * (a / 7));
        vstd::arithmetic::div_mod::lemma_mod_multiples_vanish(-(a / 7), w as int, 7);
        vstd::arithmetic::div_mod::lemma_small_mod(w as nat, 7);
        assert(p % 7 == w as int);
    }
    let max = day_number_max();
    let mut t: i64 = dn as i64 + 1;
    loop
        invariant
            p == next_weekday_dn(date_dn(date@), weekday_num(weekday)),
            dn + 1 <= t <= p,
            p <= dn + 7,
            p % 7 == w as int,
            0 <= w < 7,
            dn as int <= day_number(9999, 12, 31),
            max as int == day_number(9999, 12, 31),
        decreases p - t,
    {
        if t % 7 == w as i64 {
            proof {
                lemma_same_weekday_close(t as int, p);
            }
            if t > max as i64 {
                return Err(e("Can't calculate date"));
            }
            match Date::from_day_number(t as u32) {
                Some(d) => {
                    return Ok(d);
                },
                None => {
                    return Err(e("Can't calculate date"));
                },
            }
        }
        t = t + 1;
    }
}

/// Two days less than a week apart that share a weekday are the same
/// day.
proof fn lemma_same_weekday_close(a: int, b: int)
    requires
        a <= b < a + 7,
        a % 7 == b % 7,
    ensures
        a == b,
{
    vstd::arithmetic::div_mod::lemma_fundamental_div_mod(a, 7);
    vstd::arithmetic::div_mod::lemma_fundamental_div_mod(b, 7);
    assert(b - a == 7 * (b / 7) - 7 * (a / 7));
    assert(7 * (b / 7) - 7 * (a / 7) == 7 * (b / 7 - a / 7)) by (nonlinear_arith);
    let k = b / 7 - a / 7;
    assert(0 <= 7 * k < 7);
    assert(k == 0) by (nonlinear_arith)
        requires
            0 <= 7 * k < 7,
    ;
}

/// The largest supported day number, 31 December 9999.
fn day_number_max() -> (r: u32)
    ensures
        r as int == day_number(9999, 12, 31),
{
    let d = Date::from_ymd(9999, 12, 31).unwrap();
    d.to_day_number()
}

/// The weekday as its residue class modulo 7.
fn weekday_target(w: Weekday) -> (r: u8)
    ensures
        r as int == weekday_num(w),
        r < 7,
{
    match w {
        Weekday::Mon => 0,
        Weekday::Tue => 1,
        Weekday::Wed => 2,
        Weekday::Thu => 3,
        Weekday::Fri => 4,
        Weekday::Sat => 5,
        Weekday::Sun => 6,
    }
}

/// The Sunday on or before the day with number `dn`.
pub open spec fn sunday_on_or_before(dn: int) -> int {
    dn - ((dn % 7 + 1) % 7)
}

/// The mystery the plain weekday table assigns, for a weekday given as
/// days since Monday.
pub open spec fn weekday_mystery(wd: int) -> Mysteries {
    if wd == 0 {
        Mysteries::Joyful
    } else if wd == 1 {
        Mysteries::Sorrowful
    } else if wd == 2 {
        Mysteries::Glorious
    } else if wd == 3 {
        Mysteries::Luminous
    } else if wd == 4 {
        Mysteries::Sorrowful
    } else if wd == 5 {
        Mysteries::Joyful
    } else {
        Mysteries::Glorious
    }
}

/// The mystery assigned to a calendar day. Easter Sunday is Glorious;
/// a Sunday strictly between Ash Wednesday and Easter is Sorrowful; a
/// Sunday of the four-week Advent window ending on the Sunday on or
/// before 24 December is Joyful; any other day follows the weekday
/// table. When Easter cannot be computed for the year, only the
/// weekday table applies.
pub open spec fn daily_mystery_spec(v: crate::date::Ymd) -> Mysteries {
    let x = date_dn(v);
    let wd = x % 7;
    if easter_rata(v.y) is Some {
        let ed = easter_dn(v.y);
        if x == ed {
            Mysteries::Glorious
        } else if ed - 46 < x < ed && wd == 6 {
            Mysteries::Sorrowful
        } else {
            let fourth = sunday_on_or_before(day_number(v.y, 12, 24));
            if fourth - 21 <= x <= fourth && wd == 6 {
                Mysteries::Joyful
            } else {
                weekday_mystery(wd)
            }
        }
    } else {
        weekday_mystery(wd)
    }
}

/// The mystery of the day: the Easter, Lent-Sunday and Advent-Sunday
/// overrides in that order of precedence, else the weekday table.
pub fn get_daily_mystery_enum(date: &Date) -> (m: Mysteries)
    ensures
        m == daily_mystery_spec(date@),
{
    let x = date.to_day_number();
    let wd = x % 7;
    match easter_days_from_ce(date.year()) {
        Some(rata) => {
            let ed: i64 = rata as i64 - 1;
            if x as i64 == ed {
                Mysteries::Glorious
            } else if ed - 46 < x as i64 && (x as i64) < ed && wd == 6 {
                Mysteries::Sorrowful
            } else {
                proof {
                    use_type_invariant(date);
                }
                let dec24 = Date::from_ymd(date.year(), 12, 24).unwrap();
                let dn24 = dec24.to_day_number();
                let fourth: i64 = dn24 as i64 - ((dn24 % 7 + 1) % 7) as i64;
                if fourth - 21 <= x as i64 && x as i64 <= fourth && wd == 6 {
                    Mysteries::Joyful
                } else {
                    weekday_table(wd as u8)
                }
            }
        },
        None => weekday_table(wd as u8),
    }
}

/// The weekday table of mysteries.
fn weekday_table(wd: u8) -> (m: Mysteries)
    ensures
        m == weekday_mystery(wd as int),
{
    match wd {
        0 => Mysteries::Joyful,
        1 => Mysteries::Sorrowful,
        2 => Mysteries::Glorious,
        3 => Mysteries::Luminous,
        4 => Mysteries::Sorrowful,
        5 => Mysteries::Joyful,
        _ => Mysteries::Glorious,
    }
}

/// The English name of a weekday, days since Monday.
pub open spec fn weekday_name_spec(wd: int) -> Seq<char> {
    if wd == 0 {
        "Monday"@
    } else if wd == 1 {
        "Tuesday"@
    } else if wd == 2 {
        "Wednesday"@
    } else if wd == 3 {
        "Thursday"@
    } else if wd == 4 {
        "Friday"@
    } else if wd == 5 {
        "Saturday"@
    } else {
        "Sunday"@
    }
}

/// The English name of the date's weekday.
pub fn weekday(date: &Date) -> (r: &'static str)
    ensures
        r@ == weekday_name_spec(date_dn(date@) % 7),
{
    let x = date.to_day_number();
    match x % 7 {
        0 => "Monday",
        1 => "Tuesday",
        2 => "Wednesday",
        3 => "Thursday",
        4 => "Friday",
        5 => "Saturday",
        _ => "Sunday",
    }
}

/// The nearest Sunday strictly before the date.
pub fn sunday_before(date: Date) -> (r: Result<Date, ErrorString>)
    ensures
        r is Ok <==> prev_weekday_dn(date_dn(date@), 6) >= 0,
        r is Ok ==> date_dn(r.unwrap()@) == prev_weekday_dn(date_dn(date@), 6),
        r is Err ==> r.unwrap_err()@ == "Can't calculate date"@,
{
    weekday_before(date, Weekday::Sun)
}

/// The nearest Sunday strictly after the date.
pub fn sunday_after(date: Date) -> (r: Result<Date, ErrorString>)
    ensures
        r is Ok <==> next_weekday_dn(date_dn(date@), 6) <= day_number(9999, 12, 31),
        r is Ok ==> date_dn(r.unwrap()@) == next_weekday_dn(date_dn(date@), 6),
        r is Err ==> r.unwrap_err()@ == "Can't calculate date"@,
{
    weekday_after(date, Weekday::Sun)
}


/// The conditions under which every date of a liturgical year can be
/// computed: Easter exists, leaves room for Septuagesima below it and
/// for Trinity Sunday above Pentecost, and the year is supported.
pub open spec fn annus_ok(year: int) -> bool {
    &&& year_in_range(year)
    &&& easter_rata(year) is Some
    &&& easter_dn(year) >= 46
    &&& prev_weekday_dn(easter_dn(year) - 46, 6) >= 14
    &&& easter_dn(year) + 49 <= day_number(9999, 12, 31)
    &&& next_weekday_dn(easter_dn(year) + 49, 6) <= day_number(9999, 12, 31)
}

/// The named dates of one liturgical year: fixed feasts, and moveable
/// feasts anchored on Easter or on the fourth Sunday of Advent.
pub struct AnnusLiturgicus {
    pub festum_circumcisionis_domini: Date,
    pub epiphan_domini: Date,
    pub praesentatio_domini: Date,
    pub septuagesima: Date,
    pub sexagesima: Date,
    pub quinquagesima: Date,
    pub dies_cinerum: Date,
    pub quadragesima: Date,
    pub dominica_reminiscere: Date,
    pub dominica_oculi: Date,
    pub dominica_laetare: Date,
    pub annuntiatio_beatae_mariae_virginis: Date,
    pub dominica_de_passione: Date,
    pub dominica_in_palmis_de_passione_domini: Date,
    pub dies_cenae_domini: Date,
    pub dies_passionis_domini: Date,
    pub dominica_resurrectionis_domini: Date,
    pub easter_monday: Date,
    pub easter_tuesday: Date,
    pub dominica_in_albis: Date,
    pub dominica_misericordia: Date,
    pub dominica_jubilate: Date,
    pub dominica_cantate: Date,
    pub dominica_rogate: Date,
    pub ascensio_domini: Date,
    pub dominica_exaudi: Date,
    pub pentecostes: Date,
    pub dominica_trinitatis: Date,
    pub nativitas_ioannis_baptistae: Date,
    pub festum_michaeli: Date,
    pub omnium_sanctorum: Date,
    pub festum_sancti_martini: Date,
    pub first_advent: Date,
    pub second_advent: Date,
    pub third_advent: Date,
    pub fourth_advent: Date,
    pub festum_nativitatis_domini: Date,
    pub festum_st_johannis_evangelistae: Date,
    pub third_christmas_day: Date,
}

/// Where every date of the year falls, stated by its day number: each
/// moveable feast as an offset from Easter or from a weekday search,
/// each fixed feast at its month and day.
pub open spec fn annus_dates_ok(al: AnnusLiturgicus, year: int) -> bool {
    let ed = easter_dn(year);
    let q = prev_weekday_dn(ed - 46, 6);
    let fa = prev_weekday_dn(day_number(year, 12, 25), 6);
    &&& date_dn(al.festum_circumcisionis_domini@) == day_number(year, 1, 1)
    &&& date_dn(al.epiphan_domini@) == day_number(year, 1, 6)
    &&& date_dn(al.praesentatio_domini@) == day_number(year, 2, 2)
    &&& date_dn(al.septuagesima@) == q - 14
    &&& date_dn(al.sexagesima@) == q - 7
    &&& date_dn(al.quinquagesima@) == q
    &&& date_dn(al.dies_cinerum@) == ed - 46
    &&& date_dn(al.quadragesima@) == ed - 42
    &&& date_dn(al.dominica_reminiscere@) == ed - 35
    &&& date_dn(al.dominica_oculi@) == ed - 28
    &&& date_dn(al.dominica_laetare@) == ed - 21
    &&& date_dn(al.annuntiatio_beatae_mariae_virginis@) == day_number(year, 3, 25)
    &&& date_dn(al.dominica_de_passione@) == ed - 14
    &&& date_dn(al.dominica_in_palmis_de_passione_domini@) == prev_weekday_dn(ed, 6)
    &&& date_dn(al.dies_cenae_domini@) == prev_weekday_dn(ed, 3)
    &&& date_dn(al.dies_passionis_domini@) == prev_weekday_dn(ed, 4)
    &&& date_dn(al.dominica_resurrectionis_domini@) == ed
    &&& date_dn(al.easter_monday@) == next_weekday_dn(ed, 0)
    &&& date_dn(al.easter_tuesday@) == next_weekday_dn(ed, 1)
    &&& date_dn(al.dominica_in_albis@) == next_weekday_dn(ed, 6)
    &&& date_dn(al.dominica_misericordia@) == ed + 14
    &&& date_dn(al.dominica_jubilate@) == ed + 21
    &&& date_dn(al.dominica_cantate@) == ed + 28
    &&& date_dn(al.dominica_rogate@) == ed + 35
    &&& date_dn(al.ascensio_domini@) == ed + 39
    &&& date_dn(al.dominica_exaudi@) == ed + 42
    &&& date_dn(al.pentecostes@) == ed + 49
    &&& date_dn(al.dominica_trinitatis@) == next_weekday_dn(ed + 49, 6)
    &&& date_dn(al.nativitas_ioannis_baptistae@) == day_number(year, 6, 24)
    &&& date_dn(al.festum_michaeli@) == day_number(year, 9, 29)
    &&& date_dn(al.omnium_sanctorum@) == day_number(year, 11, 1)
    &&& date_dn(al.festum_sancti_martini@) == day_number(year, 11, 11)
    &&& date_dn(al.first_advent@) == fa - 21
    &&& date_dn(al.second_advent@) == fa - 14
    &&& date_dn(al.third_advent@) == fa - 7
    &&& date_dn(al.fourth_advent@) == fa
    &&& date_dn(al.festum_nativitatis_domini@) == day_number(year, 12, 25)
    &&& date_dn(al.festum_st_johannis_evangelistae@) == day_number(year, 12, 25) + 1
    &&& date_dn(al.third_christmas_day@) == day_number(year, 12, 25) + 2
}

impl AnnusLiturgicus {
    /// All dates of the liturgical year anchored on the given year's
    /// Easter; an error exactly when one of them cannot be computed.
    pub fn new(year: i32) -> (r: Result<AnnusLiturgicus, ErrorString>)
        ensures
            r is Ok <==> annus_ok(year as int),
            r is Ok ==> annus_dates_ok(r.unwrap(), year as int),
    {
        let easter = match pascha(year) {
            Ok(d) => d,
            Err(err) => {
                return Err(err);
            },
        };
        proof {
            use_type_invariant(easter);
            crate::date::lemma_day_number_range(easter@.y, easter@.m, easter@.d);
        }
        let dies_cinerum = match days_before(easter, 46) {
            Ok(d) => d,
            Err(err) => {
                return Err(err);
            },
        };
        let quinquagesima = match sunday_before(dies_cinerum) {
            Ok(d) => d,
            Err(err) => {
                return Err(err);
            },
        };
        let septuagesima = match weeks_before(quinquagesima, 2) {
            Ok(d) => d,
            Err(err) => {
                return Err(err);
            },
        };
        let pentecostes = match days_after(easter, 49) {
            Ok(d) => d,
            Err(err) => {
                return Err(err);
            },
        };
        let dominica_trinitatis = match sunday_after(pentecostes) {
            Ok(d) => d,
            Err(err) => {
                return Err(err);
            },
        };
        let festum_nativitatis_domini = match Date::from_ymd(year, 12, 25) {
            Some(d) => d,
            None => {
                return Err(e("no nativity date"));
            },
        };
        proof {
            crate::date::lemma_days_before_year_bounds(year as int);
            crate::date::lemma_days_before_month_13(year as int);
            crate::date::lemma_days_before_month_monotone(year as int, 12, 13);
            crate::date::lemma_day_number_range(year as int, 12, 27);
        }
        let fourth_advent = match sunday_before(festum_nativitatis_domini) {
            Ok(d) => d,
            Err(err) => {
                return Err(err);
            },
        };
        let r = AnnusLiturgicus {
            festum_circumcisionis_domini: match Date::from_ymd(year, 1, 1) {
                Some(d) => d,
                None => {
                    return Err(e("no circumcision date"));
                },
            },
            epiphan_domini: match Date::from_ymd(year, 1, 6) {
                Some(d) => d,
                None => {
                    return Err(e("no epiphany date"));
                },
            },
            praesentatio_domini: match Date::from_ymd(year, 2, 2) {
                Some(d) => d,
                None => {
                    return Err(e("no presentatio date"));
                },
            },
            septuagesima,
            sexagesima: match weeks_before(quinquagesima, 1) {
                Ok(d) => d,
                Err(err) => {
                    return Err(err);
                },
            },
            quinquagesima,
            dies_cinerum,
            quadragesima: match weeks_before(easter, 6) {
                Ok(d) => d,
                Err(err) => {
                    return Err(err);
                },
            },
            dominica_reminiscere: match weeks_before(easter, 5) {
                Ok(d) => d,
                Err(err) => {
                    return Err(err);
                },
            },
            dominica_oculi: match weeks_before(easter, 4) {
                Ok(d) => d,
                Err(err) => {
                    return Err(err);
                },
            },
            dominica_laetare: match weeks_before(easter, 3) {
                Ok(d) => d,
                Err(err) => {
                    return Err(err);
                },
            },
            annuntiatio_beatae_mariae_virginis: match Date::from_ymd(year, 3, 25) {
                Some(d) => d,
                None => {
                    return Err(e("no annuntiatio beatae mariae date"));
                },
            },
            dominica_de_passione: match weeks_before(easter, 2) {
                Ok(d) => d,
                Err(err) => {
                    return Err(err);
                },
            },
            dominica_in_palmis_de_passione_domini: match sunday_before(easter) {
                Ok(d) => d,
                Err(err) => {
                    return Err(err);
                },
            },
            dies_cenae_domini: match weekday_before(easter, Weekday::Thu) {
                Ok(d) => d,
                Err(err) => {
                    return Err(err);
                },
            },
            dies_passionis_domini: match weekday_before(easter, Weekday::Fri) {
                Ok(d) => d,
                Err(err) => {
                    return Err(err);
                },
            },
            dominica_resurrectionis_domini: easter,
            easter_monday: match weekday_after(easter, Weekday::Mon) {
                Ok(d) => d,
                Err(err) => {
                    return Err(err);
                },
            },
            easter_tuesday: match weekday_after(easter, Weekday::Tue) {
                Ok(d) => d,
                Err(err) => {
                    return Err(err);
                },
            },
            dominica_in_albis: match sunday_after(easter) {
                Ok(d) => d,
                Err(err) => {
                    return Err(err);
                },
            },
            dominica_misericordia: match weeks_after(easter, 2) {
                Ok(d) => d,
                Err(err) => {
                    return Err(err);
                },
            },
            dominica_jubilate: match weeks_after(easter, 3) {
                Ok(d) => d,
                Err(err) => {
                    return Err(err);
                },
            },
            dominica_cantate: match weeks_after(easter, 4) {
                Ok(d) => d,
                Err(err) => {
                    return Err(err);
                },
            },
            dominica_rogate: match weeks_after(easter, 5) {
                Ok(d) => d,
                Err(err) => {
                    return Err(err);
                },
            },
            ascensio_domini: match days_after(easter, 39) {
                Ok(d) => d,
                Err(err) => {
                    return Err(err);
                },
            },
            dominica_exaudi: match weeks_after(easter, 6) {
                Ok(d) => d,
                Err(err) => {
                    return Err(err);
                },
            },
            pentecostes,
            dominica_trinitatis,
            nativitas_ioannis_baptistae: match Date::from_ymd(year, 6, 24) {
                Some(d) => d,
                None => {
                    return Err(e("no nativity date of John the Baptist"));
                },
            },
            festum_michaeli: match Date::from_ymd(year, 9, 29) {
                Some(d) => d,
                None => {
                    return Err(e("No date for feast of St. Michael"));
                },
            },
            omnium_sanctorum: match Date::from_ymd(year, 11, 1) {
                Some(d) => d,
                None => {
                    return Err(e("No date for all saints"));
                },
            },
            festum_sancti_martini: match Date::from_ymd(year, 11, 11) {
                Some(d) => d,
                None => {
                    return Err(e("No date for St. Martin"));
                },
            },
            first_advent: match weeks_before(fourth_advent, 3) {
                Ok(d) => d,
                Err(err) => {
                    return Err(err);
                },
            },
            second_advent: match weeks_before(fourth_advent, 2) {
                Ok(d) => d,
                Err(err) => {
                    return Err(err);
                },
            },
            third_advent: match weeks_before(fourth_advent, 1) {
                Ok(d) => d,
                Err(err) => {
                    return Err(err);
                },
            },
            fourth_advent,
            festum_nativitatis_domini,
            festum_st_johannis_evangelistae: match days_after(festum_nativitatis_domini, 1) {
                Ok(d) => d,
                Err(err) => {
                    return Err(err);
                },
            },
            third_christmas_day: match days_after(festum_nativitatis_domini, 2) {
                Ok(d) => d,
                Err(err) => {
                    return Err(err);
                },
            },
        };
        Ok(r)
    }

    /// The year's dates as (name, date) pairs, in calendar-definition
    /// order.
    pub fn to_vec(&self) -> (v: Vec<(&'static str, Date)>)
        ensures
            v@.len() == 39,
            v@[0].0@ == "festum_circumcisionis_domini"@ && v@[0].1 == self.festum_circumcisionis_domini,
            v@[1].0@ == "epiphan_domini"@ && v@[1].1 == self.epiphan_domini,
            v@[2].0@ == "praesentatio_domini"@ && v@[2].1 == self.praesentatio_domini,
            v@[3].0@ == "septuagesima"@ && v@[3].1 == self.septuagesima,
            v@[4].0@ == "sexagesima"@ && v@[4].1 == self.sexagesima,
            v@[5].0@ == "quinquagesima"@ && v@[5].1 == self.quinquagesima,
            v@[6].0@ == "dies_cinerum"@ && v@[6].1 == self.dies_cinerum,
            v@[7].0@ == "quadragesima"@ && v@[7].1 == self.quadragesima,
            v@[8].0@ == "dominica_reminiscere"@ && v@[8].1 == self.dominica_reminiscere,
            v@[9].0@ == "dominica_oculi"@ && v@[9].1 == self.dominica_oculi,
            v@[10].0@ == "dominica_laetare"@ && v@[10].1 == self.dominica_laetare,
            v@[11].0@ == "annuntiatio_beatae_mariae_virginis"@ && v@[11].1 == self.annuntiatio_beatae_mariae_virginis,
            v@[12].0@ == "dominica_de_passione"@ && v@[12].1 == self.dominica_de_passione,
            v@[13].0@ == "dominica_in_palmis_de_passione_domini"@ && v@[13].1 == self.dominica_in_palmis_de_passione_domini,
            v@[14].0@ == "dies_cenae_domini"@ && v@[14].1 == self.dies_cenae_domini,
            v@[15].0@ == "dies_passionis_domini"@ && v@[15].1 == self.dies_passionis_domini,
            v@[16].0@ == "dominica_resurrectionis_domini"@ && v@[16].1 == self.dominica_resurrectionis_domini,
            v@[17].0@ == "easter_monday"@ && v@[17].1 == self.easter_monday,
            v@[18].0@ == "easter_tuesday"@ && v@[18].1 == self.easter_tuesday,
            v@[19].0@ == "dominica_in_albis"@ && v@[19].1 == self.dominica_in_albis,
            v@[20].0@ == "dominica_misericordia"@ && v@[20].1 == self.dominica_misericordia,
            v@[21].0@ == "dominica_jubilate"@ && v@[21].1 == self.dominica_jubilate,
            v@[22].0@ == "dominica_cantate"@ && v@[22].1 == self.dominica_cantate,
            v@[23].0@ == "dominica_rogate"@ && v@[23].1 == self.dominica_rogate,
            v@[24].0@ == "ascensio_domini"@ && v@[24].1 == self.ascensio_domini,
            v@[25].0@ == "dominica_exaudi"@ && v@[25].1 == self.dominica_exaudi,
            v@[26].0@ == "pentecostes"@ && v@[26].1 == self.pentecostes,
            v@[27].0@ == "dominica_trinitatis"@ && v@[27].1 == self.dominica_trinitatis,
            v@[28].0@ == "nativitas_ioannis_baptistae"@ && v@[28].1 == self.nativitas_ioannis_baptistae,
            v@[29].0@ == "festum_michaeli"@ && v@[29].1 == self.festum_michaeli,
            v@[30].0@ == "omnium_sanctorum"@ && v@[30].1 == self.omnium_sanctorum,
            v@[31].0@ == "festum_sancti_martini"@ && v@[31].1 == self.festum_sancti_martini,
            v@[32].0@ == "first_advent"@ && v@[32].1 == self.first_advent,
            v@[33].0@ == "second_advent"@ && v@[33].1 == self.second_advent,
            v@[34].0@ == "third_advent"@ && v@[34].1 == self.third_advent,
            v@[35].0@ == "fourth_advent"@ && v@[35].1 == self.fourth_advent,
            v@[36].0@ == "festum_nativitatis_domini"@ && v@[36].1 == self.festum_nativitatis_domini,
            v@[37].0@ == "festum_st_johannis_evangelistae"@ && v@[37].1 == self.festum_st_johannis_evangelistae,
            v@[38].0@ == "third_christmas_day"@ && v@[38].1 == self.third_christmas_day,
    {
        let mut v: Vec<(&'static str, Date)> = Vec::new();
        v.push(("festum_circumcisionis_domini", self.festum_circumcisionis_domini));
        v.push(("epiphan_domini", self.epiphan_domini));
        v.push(("praesentatio_domini", self.praesentatio_domini));
        v.push(("septuagesima", self.septuagesima));
        v.push(("sexagesima", self.sexagesima));
        v.push(("quinquagesima", self.quinquagesima));
        v.push(("dies_cinerum", self.dies_cinerum));
        v.push(("quadragesima", self.quadragesima));
        v.push(("dominica_reminiscere", self.dominica_reminiscere));
        v.push(("dominica_oculi", self.dominica_oculi));
        v.push(("dominica_laetare", self.dominica_laetare));
        v.push(("annuntiatio_beatae_mariae_virginis", self.annuntiatio_beatae_mariae_virginis));
        v.push(("dominica_de_passione", self.dominica_de_passione));
        v.push(("dominica_in_palmis_de_passione_domini", self.dominica_in_palmis_de_passione_domini));
        v.push(("dies_cenae_domini", self.dies_cenae_domini));
        v.push(("dies_passionis_domini", self.dies_passionis_domini));
        v.push(("dominica_resurrectionis_domini", self.dominica_resurrectionis_domini));
        v.push(("easter_monday", self.easter_monday));
        v.push(("easter_tuesday", self.easter_tuesday));
        v.push(("dominica_in_albis", self.dominica_in_albis));
        v.push(("dominica_misericordia", self.dominica_misericordia));
        v.push(("dominica_jubilate", self.dominica_jubilate));
        v.push(("dominica_cantate", self.dominica_cantate));
        v.push(("dominica_rogate", self.dominica_rogate));
        v.push(("ascensio_domini", self.ascensio_domini));
        v.push(("dominica_exaudi", self.dominica_exaudi));
        v.push(("pentecostes", self.pentecostes));
        v.push(("dominica_trinitatis", self.dominica_trinitatis));
        v.push(("nativitas_ioannis_baptistae", self.nativitas_ioannis_baptistae));
        v.push(("festum_michaeli", self.festum_michaeli));
        v.push(("omnium_sanctorum", self.omnium_sanctorum));
        v.push(("festum_sancti_martini", self.festum_sancti_martini));
        v.push(("first_advent", self.first_advent));
        v.push(("second_advent", self.second_advent));
        v.push(("third_advent", self.third_advent));
        v.push(("fourth_advent", self.fourth_advent));
        v.push(("festum_nativitatis_domini", self.festum_nativitatis_domini));
        v.push(("festum_st_johannis_evangelistae", self.festum_st_johannis_evangelistae));
        v.push(("third_christmas_day", self.third_christmas_day));
        v
    }
}


/// Mystery precedence (law): Easter Sunday is Glorious whatever its
/// weekday; a Sunday strictly between Ash Wednesday and Easter is
/// Sorrowful; a Sunday of the Advent window that neither earlier rule
/// claims is Joyful; a Thursday other than Easter is Luminous.
pub proof fn lemma_mystery_precedence(v: crate::date::Ymd)
    ensures
        easter_rata(v.y) is Some && date_dn(v) == easter_dn(v.y) ==> daily_mystery_spec(v)
            == Mysteries::Glorious,
        easter_rata(v.y) is Some && easter_dn(v.y) - 46 < date_dn(v) < easter_dn(v.y) && date_dn(v)
            % 7 == 6 ==> daily_mystery_spec(v) == Mysteries::Sorrowful,
        easter_rata(v.y) is Some && date_dn(v) != easter_dn(v.y) && !(easter_dn(v.y) - 46
            < date_dn(v) < easter_dn(v.y)) && sunday_on_or_before(day_number(v.y, 12, 24)) - 21
            <= date_dn(v) <= sunday_on_or_before(day_number(v.y, 12, 24)) && date_dn(v) % 7 == 6
            ==> daily_mystery_spec(v) == Mysteries::Joyful,
        date_dn(v) % 7 == 3 && (easter_rata(v.y) is Some ==> date_dn(v) != easter_dn(v.y))
            ==> daily_mystery_spec(v) == Mysteries::Luminous,
{
}

/// Easter-anchored offsets (law): in every computed liturgical year,
/// Ash Wednesday falls 46 days before Easter, Ascension 39 days after
/// it, and Pentecost 49 days after it.
pub proof fn lemma_easter_anchored_offsets(al: AnnusLiturgicus, year: int)
    requires
        annus_dates_ok(al, year),
    ensures
        date_dn(al.dies_cinerum@) == date_dn(al.dominica_resurrectionis_domini@) - 46,
        date_dn(al.ascensio_domini@) == date_dn(al.dominica_resurrectionis_domini@) + 39,
        date_dn(al.pentecostes@) == date_dn(al.dominica_resurrectionis_domini@) + 49,
{
}

} // verus!
