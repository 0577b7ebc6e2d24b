//! Tests for the day-count convention engine.

use calenda_rs::conventions::day_counting_conventions::DayCountConvention;
use calenda_rs::conventions::day_counting_conventions::YearFraction;
use calenda_rs::date::CalendarError;
use calenda_rs::date::Date;

fn date(y: i32, m: u8, d: u8) -> Date {
    Date::new(y, m, d).unwrap()
}

fn factor(conv: DayCountConvention, s: Date, e: Date) -> YearFraction {
    conv.day_count_factor(s, e).unwrap()
}

fn value(conv: DayCountConvention, s: Date, e: Date) -> f64 {
    let f = factor(conv, s, e);
    f.numerator as f64 / f.denominator as f64
}

#[test]
fn test_one_one_is_always_unit() {
    let f = factor(DayCountConvention::One_One, date(2024, 1, 1), date(2024, 7, 1));
    assert_eq!(f.numerator, 1);
    assert_eq!(f.denominator, 1);
    let g = factor(DayCountConvention::One_One, date(1950, 3, 7), date(2080, 11, 19));
    assert_eq!(g.numerator, 1);
    assert_eq!(g.denominator, 1);
}

#[test]
fn test_zero_length_period_is_zero() {
    let d = date(2024, 2, 29);
    let conventions = vec![
        DayCountConvention::Actual_360,
        DayCountConvention::Actual_364,
        DayCountConvention::Actual_365_25,
        DayCountConvention::Actual_365_Actual,
        DayCountConvention::Actual_365_Fixed,
        DayCountConvention::Actual_365_Leap,
        DayCountConvention::Actual_Actual_AFB,
        DayCountConvention::Actual_Actual_ISDA,
        DayCountConvention::NL_360,
        DayCountConvention::NL_365,
        DayCountConvention::Thirty_360_ISDA,
        DayCountConvention::Thirty_E_360,
        DayCountConvention::Thirty_E_360_ISDA,
        DayCountConvention::Thirty_E_365,
        DayCountConvention::Thirty_E_Plus_360,
        DayCountConvention::Thirty_U_360,
    ];
    for conv in conventions {
        assert_eq!(factor(conv, d, d).numerator, 0);
    }
}

#[test]
fn test_icma_is_unsupported() {
    let r = DayCountConvention::Actual_Actual_ICMA
        .day_count_factor(date(2024, 1, 1), date(2024, 7, 1));
    assert_eq!(r, Err(CalendarError::UnsupportedConvention));
}

#[test]
fn test_actual_360_scenario() {
    // 182 actual days between 2024-01-01 and 2024-07-01.
    let f = factor(DayCountConvention::Actual_360, date(2024, 1, 1), date(2024, 7, 1));
    assert_eq!(f.numerator, 182);
    assert_eq!(f.denominator, 360);
    let v = value(DayCountConvention::Actual_360, date(2024, 1, 1), date(2024, 7, 1));
    assert!((v - 0.505556).abs() < 1e-6);
}

#[test]
fn test_thirty_360_isda_scenario() {
    // Both day-31s clamp to 30: numerator 360*0 + 30*2 + 0 = 60.
    let f = factor(DayCountConvention::Thirty_360_ISDA, date(2024, 1, 31), date(2024, 3, 31));
    assert_eq!(f.numerator, 60);
    assert_eq!(f.denominator, 360);
    let v = value(DayCountConvention::Thirty_360_ISDA, date(2024, 1, 31), date(2024, 3, 31));
    assert!((v - 0.16667).abs() < 1e-5);
}

#[test]
fn test_actual_denominators() {
    let s = date(2024, 1, 1);
    let e = date(2024, 7, 1);
    assert_eq!(factor(DayCountConvention::Actual_364, s, e), YearFraction {
        numerator: 182,
        denominator: 364,
    });
    assert_eq!(factor(DayCountConvention::Actual_365_Fixed, s, e), YearFraction {
        numerator: 182,
        denominator: 365,
    });
    // 182 / 365.25 expressed exactly as (4 * 182) / 1461.
    assert_eq!(factor(DayCountConvention::Actual_365_25, s, e), YearFraction {
        numerator: 728,
        denominator: 1461,
    });
}

#[test]
fn test_actual_365_actual_leap_split() {
    // The range [2024-02-28, 2024-03-01) contains February 29.
    let f = factor(DayCountConvention::Actual_365_Actual, date(2024, 2, 28), date(2024, 3, 1));
    assert_eq!(f, YearFraction { numerator: 2, denominator: 366 });
    // The same range one year earlier does not.
    let g = factor(DayCountConvention::Actual_365_Actual, date(2023, 2, 28), date(2023, 3, 1));
    assert_eq!(g, YearFraction { numerator: 1, denominator: 365 });
    // A range that ends on February 29 does not contain it.
    let h = factor(DayCountConvention::Actual_365_Leap, date(2024, 2, 1), date(2024, 2, 29));
    assert_eq!(h, YearFraction { numerator: 28, denominator: 365 });
}

#[test]
fn test_nl_conventions_skip_leap_days() {
    // Exactly one February 29 lies strictly between the dates.
    let f = factor(DayCountConvention::NL_365, date(2024, 2, 28), date(2024, 3, 1));
    assert_eq!(f, YearFraction { numerator: 1, denominator: 365 });
    let g = factor(DayCountConvention::NL_360, date(2023, 7, 1), date(2025, 7, 1));
    assert_eq!(g, YearFraction { numerator: 731 - 1, denominator: 360 });
    // A leap day at either endpoint is not strictly between.
    let h = factor(DayCountConvention::NL_365, date(2024, 2, 29), date(2024, 3, 1));
    assert_eq!(h, YearFraction { numerator: 1, denominator: 365 });
}

#[test]
fn test_actual_actual_isda_same_year() {
    let f = factor(DayCountConvention::Actual_Actual_ISDA, date(2024, 1, 1), date(2024, 7, 1));
    assert_eq!(f, YearFraction { numerator: 182, denominator: 366 });
    let g = factor(DayCountConvention::Actual_Actual_ISDA, date(2023, 1, 1), date(2023, 7, 1));
    assert_eq!(g, YearFraction { numerator: 181, denominator: 365 });
}

#[test]
fn test_actual_actual_isda_across_years() {
    // 184 days remain of 2023 from July 1; 60 days of 2024 precede March 1.
    let f = factor(DayCountConvention::Actual_Actual_ISDA, date(2023, 7, 1), date(2024, 3, 1));
    assert_eq!(f.numerator, 184 * 366 + 60 * 365);
    assert_eq!(f.denominator, 365 * 366);
    let v = value(DayCountConvention::Actual_Actual_ISDA, date(2023, 7, 1), date(2024, 3, 1));
    assert!((v - (184.0 / 365.0 + 60.0 / 366.0)).abs() < 1e-12);

    // A full-year whole period: exactly one whole calendar year in between.
    let g = factor(DayCountConvention::Actual_Actual_ISDA, date(2023, 1, 1), date(2025, 1, 1));
    assert_eq!(g.numerator, 365 * 365 + 1 * 365 * 365 + 0);
    assert_eq!(g.denominator, 365 * 365);
}

#[test]
fn test_actual_actual_afb() {
    // Stub in the next year: the end's month/day composed in 2024 precedes
    // January 31, so the stub is January 15, 2025; the stub period contains
    // February 29, 2024, and spans 350 days.
    let f = factor(DayCountConvention::Actual_Actual_AFB, date(2024, 1, 31), date(2025, 1, 15));
    assert_eq!(f, YearFraction { numerator: 350, denominator: 366 });

    // No leap day in the stub period: the whole range over 365.
    let g = factor(DayCountConvention::Actual_Actual_AFB, date(2023, 1, 1), date(2023, 7, 1));
    assert_eq!(g, YearFraction { numerator: 181, denominator: 365 });

    // A multi-year period whose stub contains a leap day adds whole years:
    // the stub is January 15, 2025, 350 days after the start, containing
    // February 29, 2024; one whole year remains to January 15, 2026.
    let h = factor(DayCountConvention::Actual_Actual_AFB, date(2024, 1, 31), date(2026, 1, 15));
    assert_eq!(h, YearFraction { numerator: 366 + 350, denominator: 366 });
}

#[test]
fn test_thirty_conventions() {
    // 30E/360 clamps both ends independently.
    let f = factor(DayCountConvention::Thirty_E_360, date(2024, 1, 31), date(2024, 3, 31));
    assert_eq!(f, YearFraction { numerator: 60, denominator: 360 });
    // 30/360 ISDA does not clamp the end when the start day is below 30.
    let g = factor(DayCountConvention::Thirty_360_ISDA, date(2024, 1, 29), date(2024, 3, 31));
    assert_eq!(g, YearFraction { numerator: 30 * 2 + 2, denominator: 360 });
    // 30E/360 ISDA clamps the last day of February.
    let h = factor(DayCountConvention::Thirty_E_360_ISDA, date(2024, 2, 29), date(2024, 3, 31));
    assert_eq!(h, YearFraction { numerator: 30, denominator: 360 });
    // 30E/365 uses the same clamping over 365.
    let i = factor(DayCountConvention::Thirty_E_365, date(2024, 2, 29), date(2024, 3, 31));
    assert_eq!(i, YearFraction { numerator: 30, denominator: 365 });
    // 30U/360 clamps the end's 31 only against a clamped start of 30.
    let j = factor(DayCountConvention::Thirty_U_360, date(2024, 2, 29), date(2024, 3, 31));
    assert_eq!(j, YearFraction { numerator: 30, denominator: 360 });
    let k = factor(DayCountConvention::Thirty_U_360, date(2024, 1, 15), date(2024, 3, 31));
    assert_eq!(k, YearFraction { numerator: 30 * 2 + 16, denominator: 360 });
}

#[test]
fn test_thirty_e_plus_advances_end_of_month() {
    // The end's day 31 is not clamped: the end date advances to April 1.
    let f = factor(DayCountConvention::Thirty_E_Plus_360, date(2024, 1, 30), date(2024, 3, 31));
    assert_eq!(f, YearFraction { numerator: 30 * 3 + 1 - 30, denominator: 360 });
    // A December 31 end advances into the next year.
    let g = factor(DayCountConvention::Thirty_E_Plus_360, date(2024, 11, 30), date(2024, 12, 31));
    assert_eq!(g, YearFraction { numerator: 360 + 30 * (1 - 11) + 1 - 30, denominator: 360 });
}

#[test]
fn test_invalid_date_construction() {
    assert_eq!(Date::new(2023, 2, 29), Err(CalendarError::InvalidDate));
    assert_eq!(Date::new(2024, 2, 30), Err(CalendarError::InvalidDate));
    assert_eq!(Date::new(2024, 4, 31), Err(CalendarError::InvalidDate));
    assert_eq!(Date::new(2024, 13, 1), Err(CalendarError::InvalidDate));
    assert_eq!(Date::new(2024, 0, 1), Err(CalendarError::InvalidDate));
    assert_eq!(Date::new(2024, 5, 0), Err(CalendarError::InvalidDate));
    assert_eq!(Date::new(10000, 1, 1), Err(CalendarError::InvalidDate));
    assert!(Date::new(2024, 2, 29).is_ok());
    assert!(Date::new(-4, 2, 29).is_ok()); // proleptic leap year
}
