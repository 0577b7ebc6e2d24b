//! Tests for the calendar capability: business days, holiday rules of the
//! jurisdiction calendars, and the range-scan functions.

use calenda_rs::calendar::all_business_days_between;
use calenda_rs::calendar::all_holidays_between;
use calenda_rs::calendar::Calendar;
use calenda_rs::calendar::SingleHolidayCalendar;
use calenda_rs::countries::argentina::ArgentinaCalendar;
use calenda_rs::countries::australia::AustraliaCalendar;
use calenda_rs::countries::austria::AustriaCalendar;
use calenda_rs::countries::botswana::BotswanaCalendar;
use calenda_rs::countries::canada::CanadaCalendar;
use calenda_rs::countries::denmark::DenmarkCalendar;
use calenda_rs::countries::france::FranceCalendar;
use calenda_rs::countries::united_states::UnitedStatesCalendar;
use calenda_rs::date::Date;
use calenda_rs::date::Weekday;
use calenda_rs::functions::is_weekend;

fn date(y: i32, m: u8, d: u8) -> Date {
    Date::new(y, m, d).unwrap()
}

#[test]
fn test_calendar_names() {
    assert_eq!(FranceCalendar.name(), "France");
    assert_eq!(AustriaCalendar.name(), "Austria");
    assert_eq!(DenmarkCalendar.name(), "Denmark");
    assert_eq!(BotswanaCalendar.name(), "Botswana");
    assert_eq!(CanadaCalendar.name(), "Canada");
    assert_eq!(AustraliaCalendar.name(), "Australia");
    assert_eq!(ArgentinaCalendar.name(), "Argentina");
    assert_eq!(UnitedStatesCalendar::new().name(), "United States of America");
}

#[test]
fn test_business_day_is_weekday_and_not_holiday() {
    // For all dates, exactly one of weekend / business day /
    // holiday-on-a-weekday holds; spot-check the defining identity.
    let cal = FranceCalendar;
    let mut d = date(2024, 1, 1);
    let end = date(2024, 3, 31);
    while d <= end {
        assert_eq!(cal.is_business_day(d), !is_weekend(d) && !cal.is_holiday(d));
        let classes = (is_weekend(d) as u8)
            + (cal.is_business_day(d) as u8)
            + ((!is_weekend(d) && cal.is_holiday(d)) as u8);
        assert_eq!(classes, 1);
        d = match d.next_day() {
            Some(nd) => nd,
            None => break,
        };
    }
}

#[test]
fn test_single_holiday_calendar_scan() {
    // A jurisdiction whose only rule is "December 25 is a holiday".
    let cal = SingleHolidayCalendar::new(12, 25);
    let holidays = all_holidays_between(&cal, date(2024, 12, 1), date(2024, 12, 31));
    assert_eq!(holidays, vec![date(2024, 12, 25)]);

    // December 25, 2024 is a Wednesday: not a weekend, yet excluded from the
    // business days.
    assert_eq!(date(2024, 12, 25).weekday(), Weekday::Wednesday);
    let business = all_business_days_between(&cal, date(2024, 12, 1), date(2024, 12, 31));
    assert!(!business.contains(&date(2024, 12, 25)));
    assert!(business.contains(&date(2024, 12, 24)));
    // December 2024 has 22 weekdays; all but the holiday are business days.
    assert_eq!(business.len(), 21);
}

#[test]
fn test_scan_lengths_partition_weekdays() {
    // Over a range where no holiday falls on a weekend, the holidays and the
    // business days together account exactly for the weekdays.
    let cal = SingleHolidayCalendar::new(12, 25);
    let s = date(2024, 12, 1);
    let e = date(2024, 12, 31);
    let holidays = all_holidays_between(&cal, s, e);
    let business = all_business_days_between(&cal, s, e);
    let mut weekdays = 0;
    let mut d = s;
    while d <= e {
        if !is_weekend(d) {
            weekdays += 1;
        }
        d = d.next_day().unwrap();
    }
    assert_eq!(holidays.len() + business.len(), weekdays);
}

#[test]
fn test_scan_empty_range() {
    let cal = FranceCalendar;
    let holidays = all_holidays_between(&cal, date(2024, 12, 31), date(2024, 1, 1));
    assert!(holidays.is_empty());
    let business = all_business_days_between(&cal, date(2024, 12, 31), date(2024, 1, 1));
    assert!(business.is_empty());
}

#[test]
fn test_france_holidays_2024() {
    let cal = FranceCalendar;
    let holidays = all_holidays_between(&cal, date(2024, 1, 1), date(2024, 12, 31));
    let expected = vec![
        date(2024, 1, 1),   // Jour de l'An
        date(2024, 4, 1),   // Lundi de Paques
        date(2024, 5, 1),   // Fete du Travail
        date(2024, 5, 8),   // Victoire 1945
        date(2024, 5, 10),  // Ascension
        date(2024, 5, 21),  // Pentecote
        date(2024, 7, 14),  // Fete nationale
        date(2024, 8, 15),  // Assomption
        date(2024, 11, 1),  // Toussaint
        date(2024, 11, 11), // Armistice 1918
        date(2024, 12, 25), // Noel
    ];
    assert_eq!(holidays, expected);
}

#[test]
fn test_united_states_holidays() {
    let cal = UnitedStatesCalendar::new();
    assert!(cal.is_holiday(date(2024, 7, 4))); // Independence Day (Thursday)
    assert!(cal.is_holiday(date(2026, 7, 3))); // observed: July 4, 2026 is a Saturday
    assert!(cal.is_holiday(date(2024, 11, 28))); // Thanksgiving (4th Thursday)
    assert!(cal.is_holiday(date(2024, 1, 15))); // Martin Luther King day
    assert!(cal.is_holiday(date(2024, 5, 27))); // Memorial Day
    assert!(cal.is_holiday(date(2024, 6, 19))); // Juneteenth
    assert!(!cal.is_holiday(date(2021, 6, 19))); // not yet observed in 2021
    assert!(!cal.is_holiday(date(2024, 7, 5)));
    assert!(cal.is_business_day(date(2024, 7, 5))); // Friday, not a holiday
}

#[test]
fn test_easter_linked_holidays() {
    // Easter Monday 2024 falls on April 1; the linked holidays follow it.
    assert!(AustriaCalendar.is_holiday(date(2024, 4, 1))); // Easter Monday
    assert!(AustriaCalendar.is_holiday(date(2024, 5, 9))); // Ascension (em + 38)
    assert!(AustriaCalendar.is_holiday(date(2024, 5, 20))); // Whit Monday (em + 49)
    assert!(AustriaCalendar.is_holiday(date(2024, 5, 30))); // Corpus Christi (em + 59)
    assert!(DenmarkCalendar.is_holiday(date(2024, 3, 28))); // Maundy Thursday (em - 4)
    assert!(DenmarkCalendar.is_holiday(date(2024, 3, 29))); // Good Friday (em - 3)
    assert!(!DenmarkCalendar.is_holiday(date(2024, 4, 26))); // Prayer Day abolished
    assert!(DenmarkCalendar.is_holiday(date(2023, 5, 5))); // Prayer Day in 2023 (em + 25)
    assert!(CanadaCalendar.is_holiday(date(2024, 3, 29))); // Good Friday
    assert!(AustraliaCalendar.is_holiday(date(2024, 4, 1))); // Easter Monday
    assert!(ArgentinaCalendar.is_holiday(date(2024, 3, 28))); // Holy Thursday
    assert!(BotswanaCalendar.is_holiday(date(2024, 5, 9))); // Ascension
}

#[test]
fn test_fixed_holidays_by_country() {
    assert!(BotswanaCalendar.is_holiday(date(2024, 7, 15))); // Presidents' Day
    assert!(BotswanaCalendar.is_holiday(date(2024, 10, 1))); // Botswana Day
    assert!(CanadaCalendar.is_holiday(date(2024, 5, 20))); // Victoria Day
    assert!(CanadaCalendar.is_holiday(date(2024, 9, 30))); // Truth and Reconciliation
    assert!(!CanadaCalendar.is_holiday(date(2019, 9, 30))); // before 2021
    assert!(AustraliaCalendar.is_holiday(date(2022, 9, 22))); // Day of Mourning
    assert!(!AustraliaCalendar.is_holiday(date(2023, 9, 22)));
    assert!(ArgentinaCalendar.is_holiday(date(2024, 5, 25))); // May Revolution
    assert!(AustriaCalendar.is_holiday(date(2024, 10, 26))); // National Holiday
    assert!(!AustriaCalendar.is_holiday(date(1960, 10, 26))); // before 1967
}
