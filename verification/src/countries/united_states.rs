//! United States holidays and calendar.

use vstd::prelude::*;

use crate::calendar::Calendar;
use crate::date::{Date, Weekday};

verus! {

/// United States of America national holiday calendar.
pub struct UnitedStatesCalendar;

/// Washington's birthday: the third Monday in February since 1971, before
/// that February 22nd possibly adjusted to the nearest weekday.
pub open spec fn spec_is_washington_birthday(date: Date) -> bool {
    let y: int = date.spec_year();
    let m: int = date.spec_month();
    let d: int = date.spec_day();
    let wd: Weekday = date.spec_weekday();
    if y >= 1971 {
        15 <= d <= 21 && wd == Weekday::Monday && m == 2
    } else {
        (d == 22 || (d == 23 && wd == Weekday::Monday) || (d == 21 && wd == Weekday::Friday))
            && m == 2
    }
}

/// Memorial Day: the last Monday in May since 1971, before that May 30th
/// possibly adjusted to the nearest weekday.
pub open spec fn spec_is_memorial_day(date: Date) -> bool {
    let y: int = date.spec_year();
    let m: int = date.spec_month();
    let d: int = date.spec_day();
    let wd: Weekday = date.spec_weekday();
    if y >= 1971 {
        d >= 25 && wd == Weekday::Monday && m == 5
    } else {
        (d == 30 || (d == 31 && wd == Weekday::Monday) || (d == 29 && wd == Weekday::Friday))
            && m == 5
    }
}

/// Labor Day: the first Monday of September.
pub open spec fn spec_is_labor_day(date: Date) -> bool {
    date.spec_day() <= 7 && date.spec_weekday() == Weekday::Monday && date.spec_month() == 9
}

/// Columbus Day: the second Monday of October, since 1971.
pub open spec fn spec_is_columbus_day(date: Date) -> bool {
    8 <= date.spec_day() <= 14 && date.spec_weekday() == Weekday::Monday
        && date.spec_month() == 10 && date.spec_year() >= 1971
}

/// Veterans' Day: November 11th possibly adjusted to the nearest weekday,
/// except 1971-1977, when it was the fourth Monday of October.
pub open spec fn spec_is_veterans_day(date: Date) -> bool {
    let y: int = date.spec_year();
    let m: int = date.spec_month();
    let d: int = date.spec_day();
    let wd: Weekday = date.spec_weekday();
    if y <= 1970 || y >= 1978 {
        (d == 11 || (d == 12 && wd == Weekday::Monday) || (d == 10 && wd == Weekday::Friday))
            && m == 11
    } else {
        22 <= d <= 28 && wd == Weekday::Monday && m == 10
    }
}

/// Juneteenth: June 19th possibly adjusted to the nearest weekday, observed
/// since 2022.
pub open spec fn spec_is_juneteenth(date: Date, move_to_friday: bool) -> bool {
    let y: int = date.spec_year();
    let m: int = date.spec_month();
    let d: int = date.spec_day();
    let wd: Weekday = date.spec_weekday();
    (d == 19 || (d == 20 && wd == Weekday::Monday)
        || (d == 18 && wd == Weekday::Friday && move_to_friday)) && m == 6 && y >= 2022
}

impl Calendar for UnitedStatesCalendar {
    open spec fn spec_is_holiday(&self, date: Date) -> bool {
        let y: int = date.spec_year();
        let m: int = date.spec_month();
        let d: int = date.spec_day();
        let wd: Weekday = date.spec_weekday();
        // New Year's Day (possibly moved to Monday if on Sunday)
        ||| ((d == 1 || (d == 2 && wd == Weekday::Monday)) && m == 1)
        // (or to Friday if on Saturday)
        ||| (d == 31 && wd == Weekday::Friday && m == 12)
        // Martin Luther King's birthday (third Monday in January)
        ||| (15 <= d <= 21 && wd == Weekday::Monday && m == 1 && y >= 1983)
        // Washington's birthday (third Monday in February)
        ||| spec_is_washington_birthday(date)
        // Memorial Day (last Monday in May)
        ||| spec_is_memorial_day(date)
        // Juneteenth (Monday if Sunday or Friday if Saturday)
        ||| spec_is_juneteenth(date, true)
        // Independence Day (Monday if Sunday or Friday if Saturday)
        ||| ((d == 4 || (d == 5 && wd == Weekday::Monday) || (d == 3 && wd == Weekday::Friday))
            && m == 7)
        // Labor Day (first Monday in September)
        ||| spec_is_labor_day(date)
        // Columbus Day (second Monday in October)
        ||| spec_is_columbus_day(date)
        // Veterans' Day (Monday if Sunday or Friday if Saturday)
        ||| spec_is_veterans_day(date)
        // Thanksgiving Day (fourth Thursday in November)
        ||| (22 <= d <= 28 && wd == Weekday::Thursday && m == 11)
        // Christmas (Monday if Sunday or Friday if Saturday)
        ||| ((d == 25 || (d == 26 && wd == Weekday::Monday) || (d == 24 && wd == Weekday::Friday))
            && m == 12)
    }

    fn name(&self) -> (n: &'static str) {
        "United States of America"
    }

    fn is_holiday(&self, date: Date) -> (h: bool) {
        let y: i32 = date.year();
        let m: u8 = date.month();
        let d: u8 = date.day();
        let wd: Weekday = date.weekday();

        ((d == 1 || (d == 2 && wd == Weekday::Monday)) && m == 1)
            || (d == 31 && wd == Weekday::Friday && m == 12)
            || ((d >= 15 && d <= 21) && wd == Weekday::Monday && m == 1 && y >= 1983)
            || self.is_washington_birthday(date)
            || self.is_memorial_day(date)
            || self.is_juneteenth(date, true)
            || ((d == 4 || (d == 5 && wd == Weekday::Monday) || (d == 3 && wd == Weekday::Friday))
                && m == 7)
            || self.is_labor_day(date)
            || self.is_columbus_day(date)
            || self.is_veterans_day(date)
            || ((d >= 22 && d <= 28) && wd == Weekday::Thursday && m == 11)
            || ((d == 25 || (d == 26 && wd == Weekday::Monday)
                || (d == 24 && wd == Weekday::Friday)) && m == 12)
    }
}

impl UnitedStatesCalendar {
    /// Create a new instance of the United States of America calendar.
    pub fn new() -> (r: UnitedStatesCalendar) {
        UnitedStatesCalendar
    }

    fn is_washington_birthday(&self, date: Date) -> (h: bool)
        ensures
            h == spec_is_washington_birthday(date),
    {
        let y: i32 = date.year();
        let m: u8 = date.month();
        let d: u8 = date.day();
        let wd: Weekday = date.weekday();
        if y >= 1971 {
            // third Monday in February
            (d >= 15 && d <= 21) && wd == Weekday::Monday && m == 2
        } else {
            // February 22nd, possibly adjusted
            (d == 22 || (d == 23 && wd == Weekday::Monday) || (d == 21 && wd == Weekday::Friday))
                && m == 2
        }
    }

    fn is_memorial_day(&self, date: Date) -> (h: bool)
        ensures
            h == spec_is_memorial_day(date),
    {
        let y: i32 = date.year();
        let m: u8 = date.month();
        let d: u8 = date.day();
        let wd: Weekday = date.weekday();
        if y >= 1971 {
            // last Monday in May
            d >= 25 && wd == Weekday::Monday && m == 5
        } else {
            // May 30th, possibly adjusted
            (d == 30 || (d == 31 && wd == Weekday::Monday) || (d == 29 && wd == Weekday::Friday))
                && m == 5
        }
    }

    fn is_labor_day(&self, date: Date) -> (h: bool)
        ensures
            h == spec_is_labor_day(date),
    {
        // first Monday in September
        date.day() <= 7 && date.weekday() == Weekday::Monday && date.month() == 9
    }

    fn is_columbus_day(&self, date: Date) -> (h: bool)
        ensures
            h == spec_is_columbus_day(date),
    {
        // second Monday in October
        let d: u8 = date.day();
        (d >= 8 && d <= 14) && date.weekday() == Weekday::Monday && date.month() == 10
            && date.year() >= 1971
    }

    fn is_veterans_day(&self, date: Date) -> (h: bool)
        ensures
            h == spec_is_veterans_day(date),
    {
        let y: i32 = date.year();
        let m: u8 = date.month();
        let d: u8 = date.day();
        let wd: Weekday = date.weekday();
        if y <= 1970 || y >= 1978 {
            // November 11th, adjusted
            (d == 11 || (d == 12 && wd == Weekday::Monday) || (d == 10 && wd == Weekday::Friday))
                && m == 11
        } else {
            // fourth Monday in October
            (d >= 22 && d <= 28) && wd == Weekday::Monday && m == 10
        }
    }

    fn is_juneteenth(&self, date: Date, move_to_friday: bool) -> (h: bool)
        ensures
            h == spec_is_juneteenth(date, move_to_friday),
    {
        // declared in 2021, but only observed by exchanges since 2022
        let y: i32 = date.year();
        let m: u8 = date.month();
        let d: u8 = date.day();
        let wd: Weekday = date.weekday();
        (d == 19 || (d == 20 && wd == Weekday::Monday)
            || ((d == 18 && wd == Weekday::Friday) && move_to_friday)) && m == 6 && y >= 2022
    }
}

} // verus!
