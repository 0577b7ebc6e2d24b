//! Canada holidays and calendar.

use vstd::prelude::*;

use crate::calendar::Calendar;
use crate::date::{spec_day_of_year, Date, Weekday};
use crate::functions::{easter_monday, easter_supported, spec_easter_monday};

verus! {

/// Canada national holiday calendar.
pub struct CanadaCalendar;

impl Calendar for CanadaCalendar {
    open spec fn spec_is_holiday(&self, date: Date) -> bool {
        let y: int = date.spec_year();
        let m: int = date.spec_month();
        let d: int = date.spec_day();
        let wd: Weekday = date.spec_weekday();
        let yd: int = spec_day_of_year(y, m, d);
        let em: int = spec_easter_monday(y, false);
        // New Year's Day (possibly moved to Monday)
        ||| ((d == 1 || ((d == 2 || d == 3) && wd == Weekday::Monday)) && m == 1)
        // Family Day (third Monday in February, since 2008)
        ||| (15 <= d <= 21 && wd == Weekday::Monday && m == 2 && y >= 2008)
        // Good Friday
        ||| (easter_supported(y) && yd == em - 3)
        // The Monday on or preceding 24 May (Victoria Day)
        ||| (17 < d <= 24 && wd == Weekday::Monday && m == 5)
        // July 1st, possibly moved to Monday (Canada Day)
        ||| ((d == 1 || ((d == 2 || d == 3) && wd == Weekday::Monday)) && m == 7)
        // first Monday of August (Provincial Holiday)
        ||| (d <= 7 && wd == Weekday::Monday && m == 8)
        // first Monday of September (Labor Day)
        ||| (d <= 7 && wd == Weekday::Monday && m == 9)
        // September 30th, possibly moved to Monday
        // (National Day for Truth and Reconciliation, since 2021)
        ||| (((d == 30 && m == 9) || (d <= 2 && m == 10 && wd == Weekday::Monday)) && y >= 2021)
        // second Monday of October (Thanksgiving Day)
        ||| (7 < d <= 14 && wd == Weekday::Monday && m == 10)
        // November 11th (possibly moved to Monday)
        ||| ((d == 11 || ((d == 12 || d == 13) && wd == Weekday::Monday)) && m == 11)
        // Christmas (possibly moved to Monday or Tuesday)
        ||| ((d == 25 || (d == 27 && (wd == Weekday::Monday || wd == Weekday::Tuesday))) && m == 12)
        // Boxing Day (possibly moved to Monday or Tuesday)
        ||| ((d == 26 || (d == 28 && (wd == Weekday::Monday || wd == Weekday::Tuesday))) && m == 12)
    }

    fn name(&self) -> (n: &'static str) {
        "Canada"
    }

    fn is_holiday(&self, date: Date) -> (h: bool) {
        let y: i32 = date.year();
        let m: u8 = date.month();
        let d: u8 = date.day();
        let wd: Weekday = date.weekday();
        let yd: u32 = date.day_of_year() as u32;

        let near_easter: bool = if 1901 <= y && y <= 2199 {
            let em: u32 = easter_monday(y as usize, false) as u32;
            yd + 3 == em
        } else {
            false
        };

        ((d == 1 || ((d == 2 || d == 3) && wd == Weekday::Monday)) && m == 1)
            || ((d >= 15 && d <= 21) && wd == Weekday::Monday && m == 2 && y >= 2008)
            || near_easter
            || (d > 17 && d <= 24 && wd == Weekday::Monday && m == 5)
            || ((d == 1 || ((d == 2 || d == 3) && wd == Weekday::Monday)) && m == 7)
            || (d <= 7 && wd == Weekday::Monday && m == 8)
            || (d <= 7 && wd == Weekday::Monday && m == 9)
            || (((d == 30 && m == 9) || (d <= 2 && m == 10 && wd == Weekday::Monday)) && y >= 2021)
            || (d > 7 && d <= 14 && wd == Weekday::Monday && m == 10)
            || ((d == 11 || ((d == 12 || d == 13) && wd == Weekday::Monday)) && m == 11)
            || ((d == 25 || (d == 27 && (wd == Weekday::Monday || wd == Weekday::Tuesday)))
                && m == 12)
            || ((d == 26 || (d == 28 && (wd == Weekday::Monday || wd == Weekday::Tuesday)))
                && m == 12)
    }
}

} // verus!
