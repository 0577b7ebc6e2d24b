//! Tests for the date-rolling (business-day adjustment) conventions.

use calenda_rs::calendar::Calendar;
use calenda_rs::calendar::SingleHolidayCalendar;
use calenda_rs::countries::france::FranceCalendar;
use calenda_rs::conventions::date_rolling_conventions::next_business_day;
use calenda_rs::conventions::date_rolling_conventions::previous_business_day;
use calenda_rs::conventions::date_rolling_conventions::roll;
use calenda_rs::conventions::date_rolling_conventions::BusinessDayConvention;
use calenda_rs::date::Date;
use calenda_rs::date::Weekday;

fn date(y: i32, m: u8, d: u8) -> Date {
    Date::new(y, m, d).unwrap()
}

#[test]
fn test_roll_actual_returns_input() {
    let cal = FranceCalendar;
    // Even on a holiday or weekend the Actual convention keeps the date.
    assert_eq!(roll(date(2024, 12, 25), BusinessDayConvention::Actual, &cal), date(2024, 12, 25));
    assert_eq!(roll(date(2024, 6, 1), BusinessDayConvention::Actual, &cal), date(2024, 6, 1));
}

#[test]
fn test_roll_following_and_preceding() {
    let cal = FranceCalendar;
    // December 25, 2024 is a Wednesday and a holiday.
    let rolled = roll(date(2024, 12, 25), BusinessDayConvention::Following, &cal);
    assert_eq!(rolled, date(2024, 12, 26));
    assert!(cal.is_business_day(rolled));

    let rolled_back = roll(date(2024, 12, 25), BusinessDayConvention::Preceding, &cal);
    assert_eq!(rolled_back, date(2024, 12, 24));
    assert!(cal.is_business_day(rolled_back));

    // Saturday June 1, 2024 rolls forward to Monday and back to Friday.
    assert_eq!(roll(date(2024, 6, 1), BusinessDayConvention::Following, &cal), date(2024, 6, 3));
    assert_eq!(roll(date(2024, 6, 1), BusinessDayConvention::Preceding, &cal), date(2024, 5, 31));
}

#[test]
fn test_roll_modified_following_stays_in_month() {
    // May 31, 2024 is a Friday; make it a holiday, so plain Following would
    // land on Monday June 3, crossing the month boundary; the modified rule
    // rolls back to Thursday May 30 instead.
    let cal = SingleHolidayCalendar::new(5, 31);
    assert_eq!(date(2024, 5, 31).weekday(), Weekday::Friday);
    assert_eq!(
        roll(date(2024, 5, 31), BusinessDayConvention::Following, &cal),
        date(2024, 6, 3),
    );
    assert_eq!(
        roll(date(2024, 5, 31), BusinessDayConvention::ModifiedFollowing, &cal),
        date(2024, 5, 30),
    );
}

#[test]
fn test_roll_modified_preceding_stays_in_month() {
    // June 1, 2024 is a Saturday: Preceding would land on Friday May 31,
    // crossing back into May, so the modified rule rolls forward to Monday
    // June 3 instead.
    let cal = FranceCalendar;
    assert_eq!(
        roll(date(2024, 6, 1), BusinessDayConvention::ModifiedPreceding, &cal),
        date(2024, 6, 3),
    );
    // On a mid-month weekend the modified rule behaves like plain Preceding.
    assert_eq!(
        roll(date(2024, 6, 15), BusinessDayConvention::ModifiedPreceding, &cal),
        date(2024, 6, 14),
    );
}

#[test]
fn test_roll_modified_rolling_follows() {
    let cal = FranceCalendar;
    assert_eq!(
        roll(date(2024, 6, 1), BusinessDayConvention::ModifiedRolling, &cal),
        date(2024, 6, 3),
    );
}

#[test]
fn test_roll_business_day_unchanged_under_every_convention() {
    // Rolling an already-valid business day returns that same date.
    let cal = FranceCalendar;
    let d = date(2024, 5, 15); // a Wednesday, no holiday
    assert!(cal.is_business_day(d));
    let conventions = vec![
        BusinessDayConvention::Actual,
        BusinessDayConvention::Following,
        BusinessDayConvention::ModifiedFollowing,
        BusinessDayConvention::Preceding,
        BusinessDayConvention::ModifiedPreceding,
        BusinessDayConvention::ModifiedRolling,
    ];
    for conv in conventions {
        assert_eq!(roll(d, conv, &cal), d);
    }
}

#[test]
fn test_next_and_previous_business_day() {
    let cal = FranceCalendar;
    // Business days are fixed points.
    assert_eq!(next_business_day(&cal, date(2024, 6, 3)), date(2024, 6, 3));
    assert_eq!(previous_business_day(&cal, date(2024, 6, 3)), date(2024, 6, 3));
    // A long weekend: May 8, 2024 (Victoire) is a Wednesday.
    assert_eq!(next_business_day(&cal, date(2024, 5, 8)), date(2024, 5, 9));
    assert_eq!(previous_business_day(&cal, date(2024, 5, 8)), date(2024, 5, 7));
}
