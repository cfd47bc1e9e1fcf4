use rosarium::calender::{
    days_after, days_before, get_daily_mystery_enum, pascha, sunday_after, sunday_before, weekday,
    weekday_after, weekday_before, weeks_after, weeks_before, AnnusLiturgicus,
};
use rosarium::date::{Date, Weekday};
use rosarium::rosary::Mysteries;

fn ymd(y: i32, m: u8, d: u8) -> Date {
    Date::from_ymd(y, m, d).unwrap()
}

#[test]
fn easter_dates_of_three_years() {
    assert_eq!(pascha(2024).unwrap(), ymd(2024, 3, 31));
    assert_eq!(pascha(2021).unwrap(), ymd(2021, 4, 4));
    assert_eq!(pascha(1999).unwrap(), ymd(1999, 4, 4));
}

#[test]
fn easter_refused_before_the_gregorian_reform() {
    let r = pascha(1000);
    assert!(r.is_err());
    assert_eq!(r.unwrap_err().message(), "Can't calculate Easter");
}

#[test]
fn easter_anchored_offsets_leap_year() {
    // 2024 is a leap year: Easter falls 31 March.
    let al = AnnusLiturgicus::new(2024).unwrap();
    assert_eq!(al.dominica_resurrectionis_domini, ymd(2024, 3, 31));
    assert_eq!(al.dies_cinerum, ymd(2024, 2, 14));
    assert_eq!(al.pentecostes, ymd(2024, 5, 19));
    assert_eq!(al.ascensio_domini, ymd(2024, 5, 9));
}

#[test]
fn easter_anchored_offsets_common_years() {
    let al = AnnusLiturgicus::new(2021).unwrap();
    assert_eq!(al.dominica_resurrectionis_domini, ymd(2021, 4, 4));
    assert_eq!(al.dies_cinerum, ymd(2021, 2, 17));
    assert_eq!(al.pentecostes, ymd(2021, 5, 23));
    assert_eq!(al.ascensio_domini, ymd(2021, 5, 13));

    let al = AnnusLiturgicus::new(1999).unwrap();
    assert_eq!(al.dominica_resurrectionis_domini, ymd(1999, 4, 4));
    assert_eq!(al.dies_cinerum, ymd(1999, 2, 17));
    assert_eq!(al.pentecostes, ymd(1999, 5, 23));
    assert_eq!(al.ascensio_domini, ymd(1999, 5, 13));
}

#[test]
fn liturgical_year_2024() {
    let al = AnnusLiturgicus::new(2024).unwrap();
    assert_eq!(al.festum_circumcisionis_domini, ymd(2024, 1, 1));
    assert_eq!(al.epiphan_domini, ymd(2024, 1, 6));
    assert_eq!(al.quinquagesima, ymd(2024, 2, 11));
    assert_eq!(al.septuagesima, ymd(2024, 1, 28));
    assert_eq!(al.sexagesima, ymd(2024, 2, 4));
    assert_eq!(al.dominica_in_palmis_de_passione_domini, ymd(2024, 3, 24));
    assert_eq!(al.dies_cenae_domini, ymd(2024, 3, 28));
    assert_eq!(al.dies_passionis_domini, ymd(2024, 3, 29));
    assert_eq!(al.easter_monday, ymd(2024, 4, 1));
    assert_eq!(al.easter_tuesday, ymd(2024, 4, 2));
    assert_eq!(al.dominica_in_albis, ymd(2024, 4, 7));
    assert_eq!(al.dominica_trinitatis, ymd(2024, 5, 26));
    assert_eq!(al.fourth_advent, ymd(2024, 12, 22));
    assert_eq!(al.first_advent, ymd(2024, 12, 1));
    assert_eq!(al.festum_nativitatis_domini, ymd(2024, 12, 25));
    assert_eq!(al.festum_st_johannis_evangelistae, ymd(2024, 12, 26));
    assert_eq!(al.third_christmas_day, ymd(2024, 12, 27));
    let v = al.to_vec();
    assert_eq!(v.len(), 39);
    assert_eq!(v[0], ("festum_circumcisionis_domini", ymd(2024, 1, 1)));
    assert_eq!(v[38], ("third_christmas_day", ymd(2024, 12, 27)));
}

#[test]
fn liturgical_year_refused_for_unsupported_years() {
    assert!(AnnusLiturgicus::new(1000).is_err());
    assert!(AnnusLiturgicus::new(10200).is_err());
}

#[test]
fn mystery_of_easter_sunday_is_glorious() {
    assert_eq!(
        get_daily_mystery_enum(&ymd(2024, 3, 31)),
        Mysteries::Glorious
    );
    assert_eq!(get_daily_mystery_enum(&ymd(2021, 4, 4)), Mysteries::Glorious);
}

#[test]
fn mystery_of_lent_sunday_is_sorrowful() {
    // 10 March 2024 is a Sunday between Ash Wednesday (14 February)
    // and Easter (31 March).
    assert_eq!(
        get_daily_mystery_enum(&ymd(2024, 3, 10)),
        Mysteries::Sorrowful
    );
}

#[test]
fn mystery_of_advent_sunday_is_joyful() {
    // The Advent window of 2024 runs from 1 to 22 December; the 8th is
    // a Sunday.
    assert_eq!(get_daily_mystery_enum(&ymd(2024, 12, 8)), Mysteries::Joyful);
    assert_eq!(get_daily_mystery_enum(&ymd(2024, 12, 1)), Mysteries::Joyful);
    assert_eq!(
        get_daily_mystery_enum(&ymd(2024, 12, 22)),
        Mysteries::Joyful
    );
}

#[test]
fn mystery_weekday_table() {
    // An ordinary week of July 2024: Monday the 1st through Sunday the
    // 7th.
    assert_eq!(get_daily_mystery_enum(&ymd(2024, 7, 1)), Mysteries::Joyful);
    assert_eq!(
        get_daily_mystery_enum(&ymd(2024, 7, 2)),
        Mysteries::Sorrowful
    );
    assert_eq!(
        get_daily_mystery_enum(&ymd(2024, 7, 3)),
        Mysteries::Glorious
    );
    assert_eq!(
        get_daily_mystery_enum(&ymd(2024, 7, 4)),
        Mysteries::Luminous
    );
    assert_eq!(
        get_daily_mystery_enum(&ymd(2024, 7, 5)),
        Mysteries::Sorrowful
    );
    assert_eq!(get_daily_mystery_enum(&ymd(2024, 7, 6)), Mysteries::Joyful);
    assert_eq!(
        get_daily_mystery_enum(&ymd(2024, 7, 7)),
        Mysteries::Glorious
    );
}

#[test]
fn date_validity() {
    assert!(Date::from_ymd(2023, 2, 29).is_none());
    assert!(Date::from_ymd(2024, 2, 29).is_some());
    assert!(Date::from_ymd(2024, 4, 31).is_none());
    assert!(Date::from_ymd(2024, 13, 1).is_none());
    assert!(Date::from_ymd(2024, 0, 1).is_none());
    assert!(Date::from_ymd(0, 1, 1).is_none());
    assert!(Date::from_ymd(10000, 1, 1).is_none());
}

#[test]
fn day_number_round_trip() {
    let d = ymd(2024, 3, 31);
    let n = d.to_day_number();
    assert_eq!(Date::from_day_number(n).unwrap(), d);
    let first = ymd(1, 1, 1);
    assert_eq!(first.to_day_number(), 0);
    assert_eq!(Date::from_day_number(0).unwrap(), first);
}

#[test]
fn weekdays() {
    assert_eq!(ymd(1, 1, 1).weekday(), Weekday::Mon);
    assert_eq!(ymd(2024, 3, 31).weekday(), Weekday::Sun);
    assert_eq!(ymd(2024, 7, 4).weekday(), Weekday::Thu);
    assert_eq!(weekday(&ymd(2024, 7, 4)), "Thursday");
    assert_eq!(weekday(&ymd(2024, 3, 31)), "Sunday");
}

#[test]
fn date_offsets() {
    let e = ymd(2024, 3, 31);
    assert_eq!(days_after(e, 49).unwrap(), ymd(2024, 5, 19));
    assert_eq!(days_before(e, 46).unwrap(), ymd(2024, 2, 14));
    assert_eq!(weeks_after(e, 2).unwrap(), ymd(2024, 4, 14));
    assert_eq!(weeks_before(e, 6).unwrap(), ymd(2024, 2, 18));
    // Offsets that leave the supported range are errors, not panics.
    let early = ymd(1, 1, 2);
    let r = days_before(early, 30);
    assert!(r.is_err());
    assert_eq!(r.unwrap_err().message(), "Can't calculate date");
    assert!(days_after(ymd(9999, 12, 31), 1).is_err());
    assert!(weeks_before(early, 1).is_err());
    assert!(weeks_after(ymd(9999, 12, 30), 1).is_err());
}

#[test]
fn weekday_searches() {
    let e = ymd(2024, 3, 31);
    // Easter is itself a Sunday, so the nearest Sundays around it lie
    // a full week away.
    assert_eq!(sunday_before(e).unwrap(), ymd(2024, 3, 24));
    assert_eq!(sunday_after(e).unwrap(), ymd(2024, 4, 7));
    assert_eq!(weekday_before(e, Weekday::Thu).unwrap(), ymd(2024, 3, 28));
    assert_eq!(weekday_after(e, Weekday::Mon).unwrap(), ymd(2024, 4, 1));
    assert_eq!(weekday_after(e, Weekday::Tue).unwrap(), ymd(2024, 4, 2));
    // Searching backward from the first days of the calendar fails.
    assert!(weekday_before(ymd(1, 1, 1), Weekday::Sun).is_err());
    assert!(sunday_after(ymd(9999, 12, 28)).is_err());
}
