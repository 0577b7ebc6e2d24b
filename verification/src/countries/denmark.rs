//! Denmark holidays and calendar.

use vstd::prelude::*;

use crate::calendar::Calendar;
use crate::date::{spec_day_of_year, Date};
use crate::functions::{easter_monday, easter_supported, spec_easter_monday};

verus! {

/// Denmark national holiday calendar.
pub struct DenmarkCalendar;

impl Calendar for DenmarkCalendar {
    open spec fn spec_is_holiday(&self, date: Date) -> bool {
        let y: int = date.spec_year();
        let m: int = date.spec_month();
        let d: int = date.spec_day();
        let yd: int = spec_day_of_year(y, m, d);
        let em: int = spec_easter_monday(y, false);
        // Maundy Thursday, Good Friday and Easter Monday
        ||| (easter_supported(y) && (yd == em - 4 || yd == em - 3 || yd == em))
        // General Prayer Day
        ||| (easter_supported(y) && yd == em + 25 && y <= 2023)
        // Ascension, and the day after Ascension since 2009
        ||| (easter_supported(y) && (yd == em + 38 || (yd == em + 39 && y >= 2009)))
        // Whit Monday
        ||| (easter_supported(y) && yd == em + 49)
        // New Year's Day
        ||| (d == 1 && m == 1)
        // Constitution Day, June 5th
        ||| (d == 5 && m == 6)
        // Christmas Eve
        ||| (d == 24 && m == 12)
        // Christmas
        ||| (d == 25 && m == 12)
        // Boxing Day
        ||| (d == 26 && m == 12)
        // New Year's Eve
        ||| (d == 31 && m == 12)
    }

    fn name(&self) -> (n: &'static str) {
        "Denmark"
    }

    fn is_holiday(&self, date: Date) -> (h: bool) {
        let y: i32 = date.year();
        let m: u8 = date.month();
        let d: u8 = date.day();
        let yd: u32 = date.day_of_year() as u32;

        let near_easter: bool = if 1901 <= y && y <= 2199 {
            let em: u32 = easter_monday(y as usize, false) as u32;
            (yd + 4 == em) || (yd + 3 == em) || yd == em
                || (yd == em + 25 && y <= 2023)
                || yd == em + 38
                || (yd == em + 39 && y >= 2009)
                || yd == em + 49
        } else {
            false
        };

        near_easter
            || (d == 1 && m == 1)
            || (d == 5 && m == 6)
            || (d == 24 && m == 12)
            || (d == 25 && m == 12)
            || (d == 26 && m == 12)
            || (d == 31 && m == 12)
    }
}

} // verus!
