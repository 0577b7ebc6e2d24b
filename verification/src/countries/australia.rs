//! Australia holidays and calendar.

use vstd::prelude::*;

use crate::calendar::Calendar;
use crate::date::{spec_day_of_year, Date, Weekday};
use crate::functions::{easter_monday, easter_supported, spec_easter_monday};

verus! {

/// Australia national holiday calendar.
pub struct AustraliaCalendar;

impl Calendar for AustraliaCalendar {
    open spec fn spec_is_holiday(&self, date: Date) -> bool {
        let y: int = date.spec_year();
        let m: int = date.spec_month();
        let d: int = date.spec_day();
        let wd: Weekday = date.spec_weekday();
        let yd: int = spec_day_of_year(y, m, d);
        let em: int = spec_easter_monday(y, false);
        // New Year's Day (possibly moved to Monday)
        ||| ((d == 1 || ((d == 2 || d == 3) && wd == Weekday::Monday)) && m == 1)
        // Australia Day, January 26th (possibly moved to Monday)
        ||| ((d == 26 || ((d == 27 || d == 28) && wd == Weekday::Monday)) && m == 1)
        // Good Friday and Easter Monday
        ||| (easter_supported(y) && (yd == em - 3 || yd == em))
        // ANZAC Day
        ||| (d == 25 && m == 4)
        // Queen's Birthday, second Monday in June
        ||| (7 < d <= 14 && wd == Weekday::Monday && m == 6)
        // Bank Holiday, first Monday in August
        ||| (d <= 7 && wd == Weekday::Monday && m == 8)
        // Labour Day, first Monday in October
        ||| (d <= 7 && wd == Weekday::Monday && m == 10)
        // Christmas, December 25th (possibly moved to Monday or Tuesday)
        ||| ((d == 25 || (d == 27 && (wd == Weekday::Monday || wd == Weekday::Tuesday))) && m == 12)
        // Boxing Day, December 26th (possibly moved to Monday or Tuesday)
        ||| ((d == 26 || (d == 28 && (wd == Weekday::Monday || wd == Weekday::Tuesday))) && m == 12)
        // National Day of Mourning for Her Majesty, September 22 (only 2022)
        ||| (d == 22 && m == 9 && y == 2022)
    }

    fn name(&self) -> (n: &'static str) {
        "Australia"
    }

    fn is_holiday(&self, date: Date) -> (h: bool) {
        let y: i32 = date.year();
        let m: u8 = date.month();
        let d: u8 = date.day();
        let wd: Weekday = date.weekday();
        let yd: u32 = date.day_of_year() as u32;

        let near_easter: bool = if 1901 <= y && y <= 2199 {
            let em: u32 = easter_monday(y as usize, false) as u32;
            yd + 3 == em || yd == em
        } else {
            false
        };

        ((d == 1 || ((d == 2 || d == 3) && wd == Weekday::Monday)) && m == 1)
            || ((d == 26 || ((d == 27 || d == 28) && wd == Weekday::Monday)) && m == 1)
            || near_easter
            || (d == 25 && m == 4)
            || ((d > 7 && d <= 14) && wd == Weekday::Monday && m == 6)
            || (d <= 7 && wd == Weekday::Monday && m == 8)
            || (d <= 7 && wd == Weekday::Monday && m == 10)
            || ((d == 25 || (d == 27 && (wd == Weekday::Monday || wd == Weekday::Tuesday)))
                && m == 12)
            || ((d == 26 || (d == 28 && (wd == Weekday::Monday || wd == Weekday::Tuesday)))
                && m == 12)
            || (d == 22 && m == 9 && y == 2022)
    }
}

} // verus!
