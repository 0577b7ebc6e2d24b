//! Tests for the date utility functions: weekday occurrences within a
//! month, Easter Monday, date unpacking and weekend tests.

use calenda_rs::date::Date;
use calenda_rs::date::Weekday;
use calenda_rs::functions::easter_monday;
use calenda_rs::functions::get_first_day_of_month;
use calenda_rs::functions::get_first_friday_of_month;
use calenda_rs::functions::get_first_monday_of_month;
use calenda_rs::functions::get_first_saturday_of_month;
use calenda_rs::functions::get_first_sunday_of_month;
use calenda_rs::functions::get_first_thursday_of_month;
use calenda_rs::functions::get_first_tuesday_of_month;
use calenda_rs::functions::get_first_wednesday_of_month;
use calenda_rs::functions::get_last_day_of_month;
use calenda_rs::functions::get_last_friday_of_month;
use calenda_rs::functions::get_last_monday_of_month;
use calenda_rs::functions::get_last_saturday_of_month;
use calenda_rs::functions::get_last_sunday_of_month;
use calenda_rs::functions::get_last_thursday_of_month;
use calenda_rs::functions::get_last_tuesday_of_month;
use calenda_rs::functions::get_last_wednesday_of_month;
use calenda_rs::functions::is_weekday;
use calenda_rs::functions::is_weekend;
use calenda_rs::functions::unpack_date;

fn date(y: i32, m: u8, d: u8) -> Date {
    Date::new(y, m, d).unwrap()
}

#[test]
fn test_first_x_day_of_month() {
    let y = 2024;
    let m = 1;

    assert_eq!(get_first_monday_of_month(y, m).unwrap(), date(y, m, 1));
    assert_eq!(get_first_tuesday_of_month(y, m).unwrap(), date(y, m, 2));
    assert_eq!(get_first_wednesday_of_month(y, m).unwrap(), date(y, m, 3));
    assert_eq!(get_first_thursday_of_month(y, m).unwrap(), date(y, m, 4));
    assert_eq!(get_first_friday_of_month(y, m).unwrap(), date(y, m, 5));
    assert_eq!(get_first_saturday_of_month(y, m).unwrap(), date(y, m, 6));
    assert_eq!(get_first_sunday_of_month(y, m).unwrap(), date(y, m, 7));
}

#[test]
fn test_last_x_day_of_month() {
    let y = 2024;
    let m = 1;

    assert_eq!(get_last_monday_of_month(y, m).unwrap(), date(y, m, 29));
    assert_eq!(get_last_tuesday_of_month(y, m).unwrap(), date(y, m, 30));
    assert_eq!(get_last_wednesday_of_month(y, m).unwrap(), date(y, m, 31));
    assert_eq!(get_last_thursday_of_month(y, m).unwrap(), date(y, m, 25));
    assert_eq!(get_last_friday_of_month(y, m).unwrap(), date(y, m, 26));
    assert_eq!(get_last_saturday_of_month(y, m).unwrap(), date(y, m, 27));
    assert_eq!(get_last_sunday_of_month(y, m).unwrap(), date(y, m, 28));
}

#[test]
fn test_get_first_day_of_month() {
    assert_eq!(get_first_day_of_month(2024, 1).unwrap(), Weekday::Monday);
    assert_eq!(get_first_day_of_month(2024, 2).unwrap(), Weekday::Thursday);
    assert_eq!(get_first_day_of_month(2024, 3).unwrap(), Weekday::Friday);
    assert_eq!(get_first_day_of_month(2024, 4).unwrap(), Weekday::Monday);
    assert_eq!(get_first_day_of_month(2024, 5).unwrap(), Weekday::Wednesday);
    assert_eq!(get_first_day_of_month(2024, 6).unwrap(), Weekday::Saturday);
    assert_eq!(get_first_day_of_month(2024, 7).unwrap(), Weekday::Monday);
    assert_eq!(get_first_day_of_month(2024, 8).unwrap(), Weekday::Thursday);
    assert_eq!(get_first_day_of_month(2024, 9).unwrap(), Weekday::Sunday);
    assert_eq!(get_first_day_of_month(2024, 10).unwrap(), Weekday::Tuesday);
    assert_eq!(get_first_day_of_month(2024, 11).unwrap(), Weekday::Friday);
    assert_eq!(get_first_day_of_month(2024, 12).unwrap(), Weekday::Sunday);
}

#[test]
fn test_get_first_monday_of_month() {
    assert_eq!(get_first_monday_of_month(2024, 1).unwrap(), date(2024, 1, 1));
    assert_eq!(get_first_monday_of_month(2024, 2).unwrap(), date(2024, 2, 5));
    assert_eq!(get_first_monday_of_month(2024, 3).unwrap(), date(2024, 3, 4));
    assert_eq!(get_first_monday_of_month(2024, 4).unwrap(), date(2024, 4, 1));
    assert_eq!(get_first_monday_of_month(2024, 5).unwrap(), date(2024, 5, 6));
    assert_eq!(get_first_monday_of_month(2024, 6).unwrap(), date(2024, 6, 3));
    assert_eq!(get_first_monday_of_month(2024, 7).unwrap(), date(2024, 7, 1));
    assert_eq!(get_first_monday_of_month(2024, 8).unwrap(), date(2024, 8, 5));
    assert_eq!(get_first_monday_of_month(2024, 9).unwrap(), date(2024, 9, 2));
    assert_eq!(get_first_monday_of_month(2024, 10).unwrap(), date(2024, 10, 7));
    assert_eq!(get_first_monday_of_month(2024, 11).unwrap(), date(2024, 11, 4));
    assert_eq!(get_first_monday_of_month(2024, 12).unwrap(), date(2024, 12, 2));
}

#[test]
fn test_get_last_day_of_month() {
    // January 31, 2024 is a Wednesday; February 29, 2024 is a Thursday.
    assert_eq!(get_last_day_of_month(2024, 1).unwrap(), Weekday::Wednesday);
    assert_eq!(get_last_day_of_month(2024, 2).unwrap(), Weekday::Thursday);
    assert_eq!(get_last_day_of_month(2023, 2).unwrap(), Weekday::Tuesday);
}

#[test]
fn test_month_functions_reject_bad_inputs() {
    assert!(get_first_day_of_month(2024, 0).is_err());
    assert!(get_first_day_of_month(2024, 13).is_err());
    assert!(get_first_monday_of_month(10000, 1).is_err());
    assert!(get_last_sunday_of_month(2024, 13).is_err());
}

#[test]
fn test_easter_monday_western() {
    // Easter Monday, as a day of year, for published Easter dates.
    assert_eq!(easter_monday(2024, false), 92); // April 1, 2024 (leap year)
    assert_eq!(easter_monday(2023, false), 100); // April 10, 2023
    assert_eq!(easter_monday(2000, false), 115); // April 24, 2000
    assert_eq!(easter_monday(1999, false), 95); // April 5, 1999
    assert_eq!(easter_monday(1901, false), 98); // April 8, 1901
}

#[test]
fn test_easter_monday_orthodox() {
    assert_eq!(easter_monday(2024, true), 127); // May 6, 2024
    assert_eq!(easter_monday(2023, true), 107); // April 17, 2023
    assert_eq!(easter_monday(2100, true), 123); // May 3, 2100
}

#[test]
fn test_unpack_date() {
    let d = date(2024, 4, 1);
    let (y, m, dom, wd, yd, em) = unpack_date(d, false);
    assert_eq!(y, 2024);
    assert_eq!(m, 4);
    assert_eq!(dom, 1);
    assert_eq!(wd, Weekday::Monday);
    assert_eq!(yd, 92);
    assert_eq!(em, 92); // April 1, 2024 is Easter Monday itself
}

#[test]
fn test_is_weekend_and_weekday() {
    assert!(is_weekend(date(2024, 6, 1))); // Saturday
    assert!(is_weekend(date(2024, 6, 2))); // Sunday
    assert!(!is_weekend(date(2024, 6, 3))); // Monday
    assert!(is_weekday(date(2024, 6, 3)));
    assert!(!is_weekday(date(2024, 6, 1)));
}

#[test]
fn test_weekday_and_ordinal_match_time_crate() {
    // Cross-check the date arithmetic against the `time` crate over a range
    // of dates, including century and leap-year boundaries.
    let mut t = time::Date::from_calendar_date(1899, time::Month::December, 20).unwrap();
    let last = time::Date::from_calendar_date(1904, time::Month::March, 1).unwrap();
    while t <= last {
        let ours = date(t.year(), t.month() as u8, t.day());
        assert_eq!(ours.day_of_year(), t.ordinal());
        assert_eq!(ours.weekday() as u8, t.weekday().number_days_from_monday());
        t = t.next_day().unwrap();
    }

    let a = date(2024, 1, 1);
    let b = date(2124, 3, 1);
    let ta = time::Date::from_calendar_date(2024, time::Month::January, 1).unwrap();
    let tb = time::Date::from_calendar_date(2124, time::Month::March, 1).unwrap();
    assert_eq!(a.days_until(&b), (tb.to_julian_day() - ta.to_julian_day()) as i64);
}
