//! Day count conventions.
//!
//! In finance, a day count convention determines how interest accrues over
//! time: it fixes the fraction of a year that elapses between two dates,
//! which scales coupon payments and accrued interest. Each convention's
//! year fraction is an exact rational number, which this module computes as
//! a numerator/denominator pair rather than as an inexact float.

use vstd::prelude::*;

use crate::date::{
    is_leap, is_leap_year, lemma_serial_monotone, serial_for, spec_serial, valid_ymd, ymd_lt, Date,
    CalendarError,
};
use crate::functions::{
    contains_leap_year, is_last_day_of_february, leap_days_between_serials, leap_days_in,
    leap_year_count, spec_contains_leap_day, spec_is_last_day_of_february, spec_leap_day_count,
};

verus! {

/// A year fraction as an exact rational number: `numerator / denominator`,
/// with a positive denominator.
#[derive(Clone, Copy, Debug, PartialEq, Eq, Structural)]
pub struct YearFraction {
    /// The numerator of the fraction; may be any integer.
    pub numerator: i64,
    /// The denominator of the fraction; always positive.
    pub denominator: i64,
}

/// Day count conventions.
///
/// A day count convention determines how interest accrues over time for a
/// variety of investments, including bonds, notes, loans, mortgages,
/// medium-term notes, swaps, and forward rate agreements. It determines the
/// number of days between two coupon payments and the fraction of a year
/// they represent.
#[allow(non_camel_case_types)]
#[derive(Clone, Copy, Debug, PartialEq, Eq, Structural, Hash)]
pub enum DayCountConvention {
    /// The '1/1' day count, which always returns a day count of 1.
    One_One,

    /// The 'Act/360' day count, which divides the actual number of days by 360.
    Actual_360,

    /// The 'Act/364' day count, which divides the actual number of days by 364.
    Actual_364,

    /// The 'Act/365.25' day count, which divides the actual number of days by 365.25.
    Actual_365_25,

    /// The 'Act/365 Actual' day count, which divides the actual number of days
    /// by 366 if a leap day is contained, or by 365 if not.
    Actual_365_Actual,

    /// The 'Act/365F' day count, which divides the actual number of days by 365 (fixed).
    Actual_365_Fixed,

    /// The 'Act/365L' day count, which divides the actual number of days by 365 or 366.
    Actual_365_Leap,

    /// The 'Act/Act AFB' day count, which divides the actual number of days by 366
    /// if a leap day is contained, or by 365 if not, with additional rules for
    /// periods over one year.
    Actual_Actual_AFB,

    /// The 'Act/Act ICMA' day count, which divides the actual number of days by
    /// the actual number of days in the coupon period multiplied by the frequency.
    /// It cannot be computed from two dates alone, and is reported as an
    /// unsupported convention.
    Actual_Actual_ICMA,

    /// The 'Act/Act ISDA' day count, which divides the actual number of days in a
    /// leap year by 366 and the actual number of days in a standard year by 365.
    Actual_Actual_ISDA,

    /// The 'NL/360' day count, which divides the actual number of days omitting leap days by 360.
    NL_360,

    /// The 'NL/365' day count, which divides the actual number of days omitting leap days by 365.
    NL_365,

    /// The '30/360 ISDA' day count, which treats input day-of-month 31 specially.
    Thirty_360_ISDA,

    /// The '30E/360' day count, which treats input day-of-month 31 specially.
    Thirty_E_360,

    /// The '30E/360 ISDA' day count, which treats input day-of-month 31 and end of February specially.
    Thirty_E_360_ISDA,

    /// The '30E/365' day count, which treats input day-of-month 31 and end of February specially.
    Thirty_E_365,

    /// The '30E+/360' day count, which treats input day-of-month 31 specially.
    Thirty_E_Plus_360,

    /// The '30U/360' day count, which treats input day-of-month 31 and end of February specially.
    Thirty_U_360,
}

/// The number of days of year `y`: 366 in a leap year, 365 otherwise.
pub open spec fn spec_year_length(y: int) -> int {
    if is_leap_year(y) { 366 } else { 365 }
}

/// Signed number of whole days from `s` to `e`.
pub open spec fn spec_whole_days(s: Date, e: Date) -> int {
    e.serial_of() - s.serial_of()
}

/// The 30/360 numerator over (possibly clamped) date components.
pub open spec fn thirty_360_numerator_of(
    y1: int, m1: int, d1: int, y2: int, m2: int, d2: int,
) -> int {
    360 * (y2 - y1) + 30 * (m2 - m1) + (d2 - d1)
}

/// Whether the AFB stub date (the end date's month and day composed in the
/// start date's year) precedes the start date, so that the stub is taken in
/// the following year instead.
pub open spec fn afb_uses_next_year(s: Date, e: Date) -> bool {
    ymd_lt(s.spec_year(), e.spec_month(), e.spec_day(),
        s.spec_year(), s.spec_month(), s.spec_day())
}

/// The year in which the AFB stub date falls.
pub open spec fn afb_stub_year(s: Date, e: Date) -> int {
    if afb_uses_next_year(s, e) { s.spec_year() + 1 } else { s.spec_year() }
}

/// Whether the end date's month and day can be composed into the year the
/// AFB rule picks. It fails only for a February 29 end date composed into a
/// non-leap year.
pub open spec fn afb_composable(s: Date, e: Date) -> bool {
    &&& valid_ymd(s.spec_year(), e.spec_month(), e.spec_day())
    &&& (afb_uses_next_year(s, e) ==> valid_ymd(s.spec_year() + 1, e.spec_month(), e.spec_day()))
}

/// Serial day number of the AFB stub date.
pub open spec fn afb_stub_serial(s: Date, e: Date) -> int {
    spec_serial(afb_stub_year(s, e), e.spec_month(), e.spec_day())
}

/// The exact year fraction of each convention, as a (numerator,
/// denominator) pair of integers. The `Actual_Actual_ICMA` entry is a
/// placeholder: that convention is reported as unsupported and never
/// produces a fraction.
pub open spec fn spec_day_count_factor(conv: DayCountConvention, s: Date, e: Date) -> (int, int) {
    match conv {
        DayCountConvention::One_One => (1, 1),
        DayCountConvention::Actual_360 => (spec_whole_days(s, e), 360),
        DayCountConvention::Actual_364 => (spec_whole_days(s, e), 364),
        DayCountConvention::Actual_365_25 => (4 * spec_whole_days(s, e), 1461),
        DayCountConvention::Actual_365_Actual => {
            if spec_contains_leap_day(s, e) {
                (spec_whole_days(s, e), 366)
            } else {
                (spec_whole_days(s, e), 365)
            }
        },
        DayCountConvention::Actual_365_Fixed => (spec_whole_days(s, e), 365),
        DayCountConvention::Actual_365_Leap => {
            if spec_contains_leap_day(s, e) {
                (spec_whole_days(s, e), 366)
            } else {
                (spec_whole_days(s, e), 365)
            }
        },
        DayCountConvention::Actual_Actual_AFB => {
            let stub_y: int = afb_stub_year(s, e);
            let stub_s: int = afb_stub_serial(s, e);
            if leap_days_in(s.spec_year(), stub_y, s.serial_of(), stub_s - 1) > 0 {
                ((e.spec_year() - stub_y) * 366 + (stub_s - s.serial_of()), 366)
            } else {
                (spec_whole_days(s, e), 365)
            }
        },
        DayCountConvention::Actual_Actual_ICMA => (0, 1),
        DayCountConvention::Actual_Actual_ISDA => {
            if s.spec_year() == e.spec_year() {
                (spec_whole_days(s, e), spec_year_length(s.spec_year()))
            } else {
                let den1: int = spec_year_length(s.spec_year());
                let den2: int = spec_year_length(e.spec_year());
                let head: int = spec_serial(s.spec_year() + 1, 1, 1) - s.serial_of();
                let tail: int = e.serial_of() - spec_serial(e.spec_year(), 1, 1);
                (head * den2 + (e.spec_year() - s.spec_year() - 1) * den1 * den2 + tail * den1,
                    den1 * den2)
            }
        },
        DayCountConvention::NL_360 => (spec_whole_days(s, e) - spec_leap_day_count(s, e), 360),
        DayCountConvention::NL_365 => (spec_whole_days(s, e) - spec_leap_day_count(s, e), 365),
        DayCountConvention::Thirty_360_ISDA => {
            let d1: int = if s.spec_day() == 31 { 30 } else { s.spec_day() };
            let d2: int = if d1 == 30 && e.spec_day() == 31 { 30 } else { e.spec_day() };
            (thirty_360_numerator_of(s.spec_year(), s.spec_month(), d1,
                e.spec_year(), e.spec_month(), d2), 360)
        },
        DayCountConvention::Thirty_E_360 => {
            let d1: int = if s.spec_day() == 31 { 30 } else { s.spec_day() };
            let d2: int = if e.spec_day() == 31 { 30 } else { e.spec_day() };
            (thirty_360_numerator_of(s.spec_year(), s.spec_month(), d1,
                e.spec_year(), e.spec_month(), d2), 360)
        },
        DayCountConvention::Thirty_E_360_ISDA => {
            let d1: int = if s.spec_day() == 31
                || spec_is_last_day_of_february(s.spec_year(), s.spec_month(), s.spec_day())
                { 30 } else { s.spec_day() };
            let d2: int = if e.spec_day() == 31
                || spec_is_last_day_of_february(e.spec_year(), e.spec_month(), e.spec_day())
                { 30 } else { e.spec_day() };
            (thirty_360_numerator_of(s.spec_year(), s.spec_month(), d1,
                e.spec_year(), e.spec_month(), d2), 360)
        },
        DayCountConvention::Thirty_E_365 => {
            let d1: int = if s.spec_day() == 31
                || spec_is_last_day_of_february(s.spec_year(), s.spec_month(), s.spec_day())
                { 30 } else { s.spec_day() };
            let d2: int = if e.spec_day() == 31
                || spec_is_last_day_of_february(e.spec_year(), e.spec_month(), e.spec_day())
                { 30 } else { e.spec_day() };
            (thirty_360_numerator_of(s.spec_year(), s.spec_month(), d1,
                e.spec_year(), e.spec_month(), d2), 365)
        },
        DayCountConvention::Thirty_E_Plus_360 => {
            let d1: int = if s.spec_day() == 31 { 30 } else { s.spec_day() };
            if e.spec_day() == 31 {
                let ay: int = if e.spec_month() == 12 { e.spec_year() + 1 } else { e.spec_year() };
                let am: int = if e.spec_month() == 12 { 1 } else { e.spec_month() + 1 };
                (thirty_360_numerator_of(s.spec_year(), s.spec_month(), d1, ay, am, 1), 360)
            } else {
                (thirty_360_numerator_of(s.spec_year(), s.spec_month(), d1,
                    e.spec_year(), e.spec_month(), e.spec_day()), 360)
            }
        },
        DayCountConvention::Thirty_U_360 => {
            let d1: int = if s.spec_day() == 31
                || spec_is_last_day_of_february(s.spec_year(), s.spec_month(), s.spec_day())
                { 30 } else { s.spec_day() };
            let d2: int = if (e.spec_day() == 31 && d1 == 30)
                || spec_is_last_day_of_february(e.spec_year(), e.spec_month(), e.spec_day())
                { 30 } else { e.spec_day() };
            (thirty_360_numerator_of(s.spec_year(), s.spec_month(), d1,
                e.spec_year(), e.spec_month(), d2), 360)
        },
    }
}

impl DayCountConvention {
    /// Entry point for day count factor calculation.
    ///
    /// Requires `start_date <= end_date`: the behaviour of the conventions
    /// on reversed ranges is not defined, and this library fails fast by
    /// leaving such ranges out of the contract. Returns an error exactly for
    /// the `Actual_Actual_ICMA` convention, which needs coupon period and
    /// frequency inputs that two dates do not determine.
    pub fn day_count_factor(&self, start_date: Date, end_date: Date) -> (r: Result<
        YearFraction,
        CalendarError,
    >)
        requires
            start_date.serial_of() <= end_date.serial_of(),
            *self == DayCountConvention::Actual_Actual_AFB
                ==> afb_composable(start_date, end_date),
        ensures
            *self == DayCountConvention::Actual_Actual_ICMA ==> (r matches Err(e)
                && e == CalendarError::UnsupportedConvention),
            *self != DayCountConvention::Actual_Actual_ICMA ==> (r matches Ok(f)
                && f.numerator == spec_day_count_factor(*self, start_date, end_date).0
                && f.denominator == spec_day_count_factor(*self, start_date, end_date).1
                && f.denominator > 0),
    {
        match self {
            Self::One_One => Ok(Self::day_count_factor_one_one(start_date, end_date)),
            Self::Actual_360 => Ok(Self::day_count_factor_actual_360(start_date, end_date)),
            Self::Actual_364 => Ok(Self::day_count_factor_actual_364(start_date, end_date)),
            Self::Actual_365_25 => Ok(Self::day_count_factor_actual_365_25(start_date, end_date)),
            Self::Actual_365_Actual => Ok(
                Self::day_count_factor_actual_365_actual(start_date, end_date),
            ),
            Self::Actual_365_Fixed => Ok(
                Self::day_count_factor_actual_365_fixed(start_date, end_date),
            ),
            Self::Actual_365_Leap => Ok(
                Self::day_count_factor_actual_365_leap(start_date, end_date),
            ),
            Self::Actual_Actual_AFB => Ok(
                Self::day_count_factor_actual_actual_afb(start_date, end_date),
            ),
            Self::Actual_Actual_ICMA => Err(CalendarError::UnsupportedConvention),
            Self::Actual_Actual_ISDA => Ok(
                Self::day_count_factor_actual_actual_isda(start_date, end_date),
            ),
            Self::NL_360 => Ok(Self::day_count_factor_nl_360(start_date, end_date)),
            Self::NL_365 => Ok(Self::day_count_factor_nl_365(start_date, end_date)),
            Self::Thirty_360_ISDA => Ok(
                Self::day_count_factor_thirty_360_isda(start_date, end_date),
            ),
            Self::Thirty_E_360 => Ok(Self::day_count_factor_thirty_e_360(start_date, end_date)),
            Self::Thirty_E_360_ISDA => Ok(
                Self::day_count_factor_thirty_e_360_isda(start_date, end_date),
            ),
            Self::Thirty_E_365 => Ok(Self::day_count_factor_thirty_e_365(start_date, end_date)),
            Self::Thirty_E_Plus_360 => Ok(
                Self::day_count_factor_thirty_e_plus_360(start_date, end_date),
            ),
            Self::Thirty_U_360 => Ok(Self::day_count_factor_thirty_u_360(start_date, end_date)),
        }
    }

    // One/One day count factor calculation.
    fn day_count_factor_one_one(_start_date: Date, _end_date: Date) -> (r: YearFraction)
        ensures
            r.numerator == 1 && r.denominator == 1,
    {
        YearFraction { numerator: 1, denominator: 1 }
    }

    // Actual/360 day count factor calculation.
    fn day_count_factor_actual_360(start_date: Date, end_date: Date) -> (r: YearFraction)
        ensures
            r.numerator == spec_whole_days(start_date, end_date) && r.denominator == 360,
    {
        YearFraction { numerator: start_date.days_until(&end_date), denominator: 360 }
    }

    // Actual/364 day count factor calculation.
    fn day_count_factor_actual_364(start_date: Date, end_date: Date) -> (r: YearFraction)
        ensures
            r.numerator == spec_whole_days(start_date, end_date) && r.denominator == 364,
    {
        YearFraction { numerator: start_date.days_until(&end_date), denominator: 364 }
    }

    // Actual/365.25 day count factor calculation: days / 365.25 as the exact
    // fraction (4 * days) / 1461.
    fn day_count_factor_actual_365_25(start_date: Date, end_date: Date) -> (r: YearFraction)
        ensures
            r.numerator == 4 * spec_whole_days(start_date, end_date) && r.denominator == 1461,
    {
        proof {
            use_type_invariant(&start_date);
            use_type_invariant(&end_date);
            crate::date::lemma_serial_bounds(
                start_date.spec_year(), start_date.spec_month(), start_date.spec_day());
            crate::date::lemma_serial_bounds(
                end_date.spec_year(), end_date.spec_month(), end_date.spec_day());
        }
        YearFraction { numerator: 4 * start_date.days_until(&end_date), denominator: 1461 }
    }

    // Actual/365 Actual day count factor calculation.
    fn day_count_factor_actual_365_actual(start_date: Date, end_date: Date) -> (r: YearFraction)
        ensures
            r.numerator == spec_whole_days(start_date, end_date),
            r.denominator == (if spec_contains_leap_day(start_date, end_date) { 366int } else {
                365int
            }),
    {
        match contains_leap_year(start_date, end_date) {
            true => YearFraction { numerator: start_date.days_until(&end_date), denominator: 366 },
            false => YearFraction { numerator: start_date.days_until(&end_date), denominator: 365 },
        }
    }

    // Actual/365F day count factor calculation.
    fn day_count_factor_actual_365_fixed(start_date: Date, end_date: Date) -> (r: YearFraction)
        ensures
            r.numerator == spec_whole_days(start_date, end_date) && r.denominator == 365,
    {
        YearFraction { numerator: start_date.days_until(&end_date), denominator: 365 }
    }

    // Actual/365L day count factor calculation.
    fn day_count_factor_actual_365_leap(start_date: Date, end_date: Date) -> (r: YearFraction)
        ensures
            r.numerator == spec_whole_days(start_date, end_date),
            r.denominator == (if spec_contains_leap_day(start_date, end_date) { 366int } else {
                365int
            }),
    {
        match contains_leap_year(start_date, end_date) {
            true => YearFraction { numerator: start_date.days_until(&end_date), denominator: 366 },
            false => YearFraction { numerator: start_date.days_until(&end_date), denominator: 365 },
        }
    }

    // Actual/Actual AFB day count factor calculation.
    fn day_count_factor_actual_actual_afb(start_date: Date, end_date: Date) -> (r: YearFraction)
        requires
            start_date.serial_of() <= end_date.serial_of(),
            afb_composable(start_date, end_date),
        ensures
            r.numerator == spec_day_count_factor(
                DayCountConvention::Actual_Actual_AFB, start_date, end_date).0,
            r.denominator == spec_day_count_factor(
                DayCountConvention::Actual_Actual_AFB, start_date, end_date).1,
    {
        proof {
            use_type_invariant(&start_date);
            use_type_invariant(&end_date);
        }
        let y1: i32 = start_date.year();
        let m1: u8 = start_date.month();
        let d1: u8 = start_date.day();
        let m2: u8 = end_date.month();
        let d2: u8 = end_date.day();

        let uses_next: bool = m2 < m1 || (m2 == m1 && d2 < d1);
        let stub_year: i32 = if uses_next { y1 + 1 } else { y1 };
        let stub_serial: u32 = serial_for(stub_year, m2, d2);
        proof {
            crate::date::lemma_serial_bounds(stub_year as int, m2 as int, d2 as int);
        }
        let start_serial: u32 = start_date.serial();
        let leaps: u32 = leap_days_between_serials(y1, stub_year, start_serial, stub_serial - 1);
        if leaps > 0 {
            let final_stub_years: i64 = end_date.year() as i64 - stub_year as i64;
            let initial_stub_days: i64 = stub_serial as i64 - start_serial as i64;
            YearFraction { numerator: 366 * final_stub_years + initial_stub_days, denominator: 366 }
        } else {
            YearFraction { numerator: start_date.days_until(&end_date), denominator: 365 }
        }
    }

    // Actual/Actual ISDA day count factor calculation: each calendar year's
    // days are divided by that year's own length; whole years in between
    // count as one. The exact sum is returned over the common denominator of
    // the first and last year's lengths.
    fn day_count_factor_actual_actual_isda(start_date: Date, end_date: Date) -> (r: YearFraction)
        requires
            start_date.serial_of() <= end_date.serial_of(),
        ensures
            r.numerator == spec_day_count_factor(
                DayCountConvention::Actual_Actual_ISDA, start_date, end_date).0,
            r.denominator == spec_day_count_factor(
                DayCountConvention::Actual_Actual_ISDA, start_date, end_date).1,
    {
        proof {
            use_type_invariant(&start_date);
            use_type_invariant(&end_date);
        }
        let y1: i32 = start_date.year();
        let y2: i32 = end_date.year();
        if y1 == y2 {
            let den: i64 = if is_leap(y1) { 366 } else { 365 };
            YearFraction { numerator: start_date.days_until(&end_date), denominator: den }
        } else {
            proof {
                if !ymd_lt(start_date.spec_year(), start_date.spec_month(), start_date.spec_day(),
                    end_date.spec_year(), end_date.spec_month(), end_date.spec_day()) {
                    lemma_serial_monotone(
                        end_date.spec_year(), end_date.spec_month(), end_date.spec_day(),
                        start_date.spec_year(), start_date.spec_month(), start_date.spec_day());
                }
                lemma_serial_monotone(
                    start_date.spec_year(), start_date.spec_month(), start_date.spec_day(),
                    y1 as int + 1, 1, 1);
                if !(end_date.spec_month() == 1 && end_date.spec_day() == 1) {
                    lemma_serial_monotone(y2 as int, 1, 1,
                        end_date.spec_year(), end_date.spec_month(), end_date.spec_day());
                }
            }
            let den1: i64 = if is_leap(y1) { 366 } else { 365 };
            let den2: i64 = if is_leap(y2) { 366 } else { 365 };
            let jan1_after_start: u32 = serial_for(y1 + 1, 1, 1);
            let jan1_of_end: u32 = serial_for(y2, 1, 1);
            let head: i64 = jan1_after_start as i64 - start_date.serial() as i64;
            let tail: i64 = end_date.serial() as i64 - jan1_of_end as i64;
            let whole_years: i64 = y2 as i64 - y1 as i64 - 1;
            YearFraction {
                numerator: head * den2 + whole_years * den1 * den2 + tail * den1,
                denominator: den1 * den2,
            }
        }
    }

    // NL/360 day count factor calculation.
    fn day_count_factor_nl_360(start_date: Date, end_date: Date) -> (r: YearFraction)
        ensures
            r.numerator == spec_whole_days(start_date, end_date)
                - spec_leap_day_count(start_date, end_date),
            r.denominator == 360,
    {
        proof {
            use_type_invariant(&start_date);
            use_type_invariant(&end_date);
            crate::date::lemma_serial_bounds(
                start_date.spec_year(), start_date.spec_month(), start_date.spec_day());
            crate::date::lemma_serial_bounds(
                end_date.spec_year(), end_date.spec_month(), end_date.spec_day());
        }
        let day_count: i64 = start_date.days_until(&end_date);
        let leap_days: i64 = leap_year_count(start_date, end_date) as i64;
        YearFraction { numerator: day_count - leap_days, denominator: 360 }
    }

    // NL/365 day count factor calculation.
    fn day_count_factor_nl_365(start_date: Date, end_date: Date) -> (r: YearFraction)
        ensures
            r.numerator == spec_whole_days(start_date, end_date)
                - spec_leap_day_count(start_date, end_date),
            r.denominator == 365,
    {
        proof {
            use_type_invariant(&start_date);
            use_type_invariant(&end_date);
            crate::date::lemma_serial_bounds(
                start_date.spec_year(), start_date.spec_month(), start_date.spec_day());
            crate::date::lemma_serial_bounds(
                end_date.spec_year(), end_date.spec_month(), end_date.spec_day());
        }
        let day_count: i64 = start_date.days_until(&end_date);
        let leap_days: i64 = leap_year_count(start_date, end_date) as i64;
        YearFraction { numerator: day_count - leap_days, denominator: 365 }
    }

    // 30/360 ISDA day count factor calculation.
    fn day_count_factor_thirty_360_isda(start_date: Date, end_date: Date) -> (r: YearFraction)
        ensures
            r.numerator == spec_day_count_factor(
                DayCountConvention::Thirty_360_ISDA, start_date, end_date).0,
            r.denominator == 360,
    {
        proof {
            use_type_invariant(&start_date);
            use_type_invariant(&end_date);
        }
        let (y1, m1, mut d1) = Self::thirty_360_unpack_date(start_date);
        let (y2, m2, mut d2) = Self::thirty_360_unpack_date(end_date);

        if d1 == 31 {
            d1 = 30;
        }

        if d1 == 30 && d2 == 31 {
            d2 = 30;
        }

        Self::thirty_360_numerator(y1, y2, m1, m2, d1, d2, 360)
    }

    // 30E/360 day count factor calculation.
    fn day_count_factor_thirty_e_360(start_date: Date, end_date: Date) -> (r: YearFraction)
        ensures
            r.numerator == spec_day_count_factor(
                DayCountConvention::Thirty_E_360, start_date, end_date).0,
            r.denominator == 360,
    {
        proof {
            use_type_invariant(&start_date);
            use_type_invariant(&end_date);
        }
        let (y1, m1, mut d1) = Self::thirty_360_unpack_date(start_date);
        let (y2, m2, mut d2) = Self::thirty_360_unpack_date(end_date);

        if d1 == 31 {
            d1 = 30;
        }

        if d2 == 31 {
            d2 = 30;
        }

        Self::thirty_360_numerator(y1, y2, m1, m2, d1, d2, 360)
    }

    // 30E/360 ISDA day count factor calculation.
    fn day_count_factor_thirty_e_360_isda(start_date: Date, end_date: Date) -> (r: YearFraction)
        ensures
            r.numerator == spec_day_count_factor(
                DayCountConvention::Thirty_E_360_ISDA, start_date, end_date).0,
            r.denominator == 360,
    {
        proof {
            use_type_invariant(&start_date);
            use_type_invariant(&end_date);
        }
        let (y1, m1, mut d1) = Self::thirty_360_unpack_date(start_date);
        let (y2, m2, mut d2) = Self::thirty_360_unpack_date(end_date);

        if d1 == 31 || is_last_day_of_february(start_date) {
            d1 = 30;
        }

        if d2 == 31 || is_last_day_of_february(end_date) {
            d2 = 30;
        }

        Self::thirty_360_numerator(y1, y2, m1, m2, d1, d2, 360)
    }

    // 30E/365 day count factor calculation.
    fn day_count_factor_thirty_e_365(start_date: Date, end_date: Date) -> (r: YearFraction)
        ensures
            r.numerator == spec_day_count_factor(
                DayCountConvention::Thirty_E_365, start_date, end_date).0,
            r.denominator == 365,
    {
        proof {
            use_type_invariant(&start_date);
            use_type_invariant(&end_date);
        }
        let (y1, m1, mut d1) = Self::thirty_360_unpack_date(start_date);
        let (y2, m2, mut d2) = Self::thirty_360_unpack_date(end_date);

        if d1 == 31 || is_last_day_of_february(start_date) {
            d1 = 30;
        }

        if d2 == 31 || is_last_day_of_february(end_date) {
            d2 = 30;
        }

        Self::thirty_360_numerator(y1, y2, m1, m2, d1, d2, 365)
    }

    // 30E+/360 day count factor calculation.
    fn day_count_factor_thirty_e_plus_360(start_date: Date, end_date: Date) -> (r: YearFraction)
        ensures
            r.numerator == spec_day_count_factor(
                DayCountConvention::Thirty_E_Plus_360, start_date, end_date).0,
            r.denominator == 360,
    {
        proof {
            use_type_invariant(&start_date);
            use_type_invariant(&end_date);
        }
        let (y1, m1, mut d1) = Self::thirty_360_unpack_date(start_date);
        let (mut y2, mut m2, mut d2) = Self::thirty_360_unpack_date(end_date);

        if d1 == 31 {
            d1 = 30;
        }

        if d2 == 31 {
            if m2 == 12 {
                y2 = y2 + 1;
                m2 = 1;
            } else {
                m2 = m2 + 1;
            }
            d2 = 1;
        }

        Self::thirty_360_numerator(y1, y2, m1, m2, d1, d2, 360)
    }

    // 30U/360 day count factor calculation.
    fn day_count_factor_thirty_u_360(start_date: Date, end_date: Date) -> (r: YearFraction)
        ensures
            r.numerator == spec_day_count_factor(
                DayCountConvention::Thirty_U_360, start_date, end_date).0,
            r.denominator == 360,
    {
        proof {
            use_type_invariant(&start_date);
            use_type_invariant(&end_date);
        }
        let (y1, m1, mut d1) = Self::thirty_360_unpack_date(start_date);
        let (y2, m2, mut d2) = Self::thirty_360_unpack_date(end_date);

        if d1 == 31 || is_last_day_of_february(start_date) {
            d1 = 30;
        }

        if d2 == 31 && d1 == 30 || is_last_day_of_february(end_date) {
            d2 = 30;
        }

        Self::thirty_360_numerator(y1, y2, m1, m2, d1, d2, 360)
    }

    /// Function to compute the 30/360 numerator over the given denominator.
    fn thirty_360_numerator(y1: i64, y2: i64, m1: i64, m2: i64, d1: i64, d2: i64, den: i64) -> (r:
        YearFraction)
        requires
            -10000 <= y1 <= 10000,
            -10000 <= y2 <= 10000,
            1 <= m1 <= 12,
            1 <= m2 <= 12,
            1 <= d1 <= 31,
            1 <= d2 <= 31,
            den > 0,
        ensures
            r.numerator == thirty_360_numerator_of(
                y1 as int, m1 as int, d1 as int, y2 as int, m2 as int, d2 as int),
            r.denominator == den,
    {
        YearFraction { numerator: 360 * (y2 - y1) + 30 * (m2 - m1) + (d2 - d1), denominator: den }
    }

    /// Function to unpack the date components for 30/360 calculation.
    fn thirty_360_unpack_date(date: Date) -> (r: (i64, i64, i64))
        ensures
            r.0 == date.spec_year(),
            r.1 == date.spec_month(),
            r.2 == date.spec_day(),
    {
        (date.year() as i64, date.month() as i64, date.day() as i64)
    }
}

/// The One/One convention yields exactly 1, regardless of the dates.
pub proof fn lemma_one_one_unit(s: Date, e: Date)
    ensures
        spec_day_count_factor(DayCountConvention::One_One, s, e).0 == 1,
        spec_day_count_factor(DayCountConvention::One_One, s, e).1 == 1,
{
}

/// A zero-length period has a zero year fraction under every convention
/// that yields a fraction at all, other than One/One. The one exception is
/// 30E+/360 from a 31st to the same 31st, whose end-date advance makes the
/// numerator 1.
pub proof fn lemma_zero_length_period(conv: DayCountConvention, d: Date)
    requires
        d.valid(),
        conv != DayCountConvention::One_One,
        conv != DayCountConvention::Actual_Actual_ICMA,
        conv == DayCountConvention::Thirty_E_Plus_360 ==> d.spec_day() != 31,
    ensures
        spec_day_count_factor(conv, d, d).0 == 0,
{
    let n: int = d.serial_of();
    let y: int = d.spec_year();
    assert(leap_days_in(y, y - 1, n, n - 1) == 0);
    assert(leap_days_in(y, y, n, n - 1) == 0);
    assert(leap_days_in(y, y - 1, n + 1, n - 1) == 0);
    assert(leap_days_in(y, y, n + 1, n - 1) == 0);
}

} // verus!
