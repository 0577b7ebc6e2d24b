//! Tests for the calendar date type itself.

use calenda_rs::date::Date;
use calenda_rs::date::Weekday;
use calenda_rs::frequency::Frequency;

fn date(y: i32, m: u8, d: u8) -> Date {
    Date::new(y, m, d).unwrap()
}

#[test]
fn test_date_components() {
    let d = date(2024, 2, 29);
    assert_eq!(d.year(), 2024);
    assert_eq!(d.month(), 2);
    assert_eq!(d.day(), 29);
    assert_eq!(d.day_of_year(), 60);
    assert_eq!(d.weekday(), Weekday::Thursday);
}

#[test]
fn test_next_day_rollovers() {
    assert_eq!(date(2024, 1, 31).next_day(), Some(date(2024, 2, 1)));
    assert_eq!(date(2024, 2, 28).next_day(), Some(date(2024, 2, 29)));
    assert_eq!(date(2023, 2, 28).next_day(), Some(date(2023, 3, 1)));
    assert_eq!(date(2024, 12, 31).next_day(), Some(date(2025, 1, 1)));
    assert_eq!(date(9999, 12, 31).next_day(), None);
}

#[test]
fn test_prev_day_rollovers() {
    assert_eq!(date(2024, 3, 1).prev_day(), Some(date(2024, 2, 29)));
    assert_eq!(date(2023, 3, 1).prev_day(), Some(date(2023, 2, 28)));
    assert_eq!(date(2025, 1, 1).prev_day(), Some(date(2024, 12, 31)));
    assert_eq!(date(-9999, 1, 1).prev_day(), None);
}

#[test]
fn test_days_until_and_ordering() {
    let a = date(2024, 1, 1);
    let b = date(2024, 7, 1);
    assert_eq!(a.days_until(&b), 182);
    assert_eq!(b.days_until(&a), -182);
    assert_eq!(a.days_until(&a), 0);
    assert!(a.on_or_before(&b));
    assert!(a.on_or_before(&a));
    assert!(!b.on_or_before(&a));
}

#[test]
fn test_serial_numbers_are_consecutive() {
    let mut d = date(1999, 12, 25);
    let mut s = d.serial();
    for _ in 0..400 {
        let nd = d.next_day().unwrap();
        assert_eq!(nd.serial(), s + 1);
        d = nd;
        s = s + 1;
    }
}

#[test]
fn test_frequency_variants_exist() {
    let frequencies = vec![
        Frequency::Daily,
        Frequency::Weekly,
        Frequency::BiWeekly,
        Frequency::SemiMonthly,
        Frequency::Monthly,
        Frequency::SemiQuarterly,
        Frequency::Quarterly,
        Frequency::TriAnnually,
        Frequency::SemiAnnually,
        Frequency::Annually,
    ];
    assert_eq!(frequencies.len(), 10);
    assert!(matches!(frequencies[9], Frequency::Annually));
}
