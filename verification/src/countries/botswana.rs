//! Botswana holidays and calendar.

use vstd::prelude::*;

use crate::calendar::Calendar;
use crate::date::{spec_day_of_year, Date, Weekday};
use crate::functions::{easter_monday, easter_supported, spec_easter_monday};

verus! {

/// Botswana national holiday calendar.
pub struct BotswanaCalendar;

impl Calendar for BotswanaCalendar {
    open spec fn spec_is_holiday(&self, date: Date) -> bool {
        let y: int = date.spec_year();
        let m: int = date.spec_month();
        let d: int = date.spec_day();
        let wd: Weekday = date.spec_weekday();
        let yd: int = spec_day_of_year(y, m, d);
        let em: int = spec_easter_monday(y, false);
        // New Year's Day (possibly moved to Monday or Tuesday)
        ||| ((d == 1 || (d == 2 && wd == Weekday::Monday) || (d == 3 && wd == Weekday::Tuesday))
            && m == 1)
        // Good Friday, Easter Monday and Ascension
        ||| (easter_supported(y) && (yd == em - 3 || yd == em || yd == em + 38))
        // Labour Day, May 1st (possibly moved to Monday)
        ||| ((d == 1 || (d == 2 && wd == Weekday::Monday)) && m == 5)
        // Sir Seretse Khama Day, July 1st (possibly moved to Monday)
        ||| ((d == 1 || (d == 2 && wd == Weekday::Monday)) && m == 7)
        // Presidents' Day (third Monday of July)
        ||| (15 <= d <= 21 && wd == Weekday::Monday && m == 7)
        // Independence Day, September 30th (possibly moved to Monday)
        ||| ((d == 30 && m == 9) || (d == 1 && wd == Weekday::Monday && m == 10))
        // Botswana Day, October 1st (possibly moved to Monday or Tuesday)
        ||| ((d == 1 || (d == 2 && wd == Weekday::Monday) || (d == 3 && wd == Weekday::Tuesday))
            && m == 10)
        // Christmas
        ||| (d == 25 && m == 12)
        // Boxing Day (possibly moved to Monday)
        ||| ((d == 26 || (d == 27 && wd == Weekday::Monday)) && m == 12)
    }

    fn name(&self) -> (n: &'static str) {
        "Botswana"
    }

    fn is_holiday(&self, date: Date) -> (h: bool) {
        let y: i32 = date.year();
        let m: u8 = date.month();
        let d: u8 = date.day();
        let wd: Weekday = date.weekday();
        let yd: u32 = date.day_of_year() as u32;

        let near_easter: bool = if 1901 <= y && y <= 2199 {
            let em: u32 = easter_monday(y as usize, false) as u32;
            yd + 3 == em || yd == em || yd == em + 38
        } else {
            false
        };

        ((d == 1 || (d == 2 && wd == Weekday::Monday) || (d == 3 && wd == Weekday::Tuesday))
            && m == 1)
            || near_easter
            || ((d == 1 || (d == 2 && wd == Weekday::Monday)) && m == 5)
            || ((d == 1 || (d == 2 && wd == Weekday::Monday)) && m == 7)
            || ((d >= 15 && d <= 21) && wd == Weekday::Monday && m == 7)
            || ((d == 30 && m == 9) || (d == 1 && wd == Weekday::Monday && m == 10))
            || ((d == 1 || (d == 2 && wd == Weekday::Monday) || (d == 3 && wd == Weekday::Tuesday))
                && m == 10)
            || (d == 25 && m == 12)
            || ((d == 26 || (d == 27 && wd == Weekday::Monday)) && m == 12)
    }
}

} // verus!
