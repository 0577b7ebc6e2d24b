//! Argentina holidays and calendar.

use vstd::prelude::*;

use crate::calendar::Calendar;
use crate::date::{spec_day_of_year, Date, Weekday};
use crate::functions::{easter_monday, easter_supported, spec_easter_monday};

verus! {

/// Argentina national holiday calendar.
pub struct ArgentinaCalendar;

impl Calendar for ArgentinaCalendar {
    open spec fn spec_is_holiday(&self, date: Date) -> bool {
        let y: int = date.spec_year();
        let m: int = date.spec_month();
        let d: int = date.spec_day();
        let wd: Weekday = date.spec_weekday();
        let yd: int = spec_day_of_year(y, m, d);
        let em: int = spec_easter_monday(y, false);
        // New Year's Day
        ||| (d == 1 && m == 1)
        // Holy Thursday and Good Friday
        ||| (easter_supported(y) && (yd == em - 4 || yd == em - 3))
        // Labour Day
        ||| (d == 1 && m == 5)
        // May Revolution
        ||| (d == 25 && m == 5)
        // Death of General Manuel Belgrano
        ||| (15 <= d <= 21 && wd == Weekday::Monday && m == 6)
        // Independence Day
        ||| (d == 9 && m == 7)
        // Death of General Jose de San Martin
        ||| (15 <= d <= 21 && wd == Weekday::Monday && m == 8)
        // Columbus Day
        ||| ((d == 10 || d == 11 || d == 12 || d == 15 || d == 16)
            && wd == Weekday::Monday && m == 10)
        // Immaculate Conception
        ||| (d == 8 && m == 12)
        // Christmas Eve
        ||| (d == 24 && m == 12)
        // New Year's Eve
        ||| ((d == 31 || (d == 30 && wd == Weekday::Friday)) && m == 12)
    }

    fn name(&self) -> (n: &'static str) {
        "Argentina"
    }

    fn is_holiday(&self, date: Date) -> (h: bool) {
        let m: u8 = date.month();
        let d: u8 = date.day();
        let wd: Weekday = date.weekday();
        let yd: u32 = date.day_of_year() as u32;
        let y: i32 = date.year();

        let near_easter: bool = if 1901 <= y && y <= 2199 {
            let em: u32 = easter_monday(y as usize, false) as u32;
            yd + 4 == em || yd + 3 == em
        } else {
            false
        };

        (d == 1 && m == 1)
            || near_easter
            || (d == 1 && m == 5)
            || (d == 25 && m == 5)
            || (d >= 15 && d <= 21 && wd == Weekday::Monday && m == 6)
            || (d == 9 && m == 7)
            || (d >= 15 && d <= 21 && wd == Weekday::Monday && m == 8)
            || ((d == 10 || d == 11 || d == 12 || d == 15 || d == 16)
                && wd == Weekday::Monday && m == 10)
            || (d == 8 && m == 12)
            || (d == 24 && m == 12)
            || ((d == 31 || (d == 30 && wd == Weekday::Friday)) && m == 12)
    }
}

} // verus!
