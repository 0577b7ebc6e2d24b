//! Austria holidays and calendar.

use vstd::prelude::*;

use crate::calendar::Calendar;
use crate::date::{spec_day_of_year, Date};
use crate::functions::{easter_monday, easter_supported, spec_easter_monday};

verus! {

/// Austria national holiday calendar.
pub struct AustriaCalendar;

impl Calendar for AustriaCalendar {
    open spec fn spec_is_holiday(&self, date: Date) -> bool {
        let y: int = date.spec_year();
        let m: int = date.spec_month();
        let d: int = date.spec_day();
        let yd: int = spec_day_of_year(y, m, d);
        let em: int = spec_easter_monday(y, false);
        // New Year's Day
        ||| (d == 1 && m == 1)
        // Epiphany
        ||| (d == 6 && m == 1)
        // Easter Monday, Ascension Thursday, Whit Monday and Corpus Christi
        ||| (easter_supported(y) && (yd == em || yd == em + 38 || yd == em + 49 || yd == em + 59))
        // Labour Day
        ||| (d == 1 && m == 5)
        // Assumption
        ||| (d == 15 && m == 8)
        // National Holiday since 1967
        ||| (d == 26 && m == 10 && y >= 1967)
        // National Holiday 1919-1934
        ||| (d == 12 && m == 11 && 1919 <= y <= 1934)
        // All Saints' Day
        ||| (d == 1 && m == 11)
        // Immaculate Conception
        ||| (d == 8 && m == 12)
        // Christmas
        ||| (d == 25 && m == 12)
        // St. Stephen
        ||| (d == 26 && m == 12)
    }

    fn name(&self) -> (n: &'static str) {
        "Austria"
    }

    fn is_holiday(&self, date: Date) -> (h: bool) {
        let y: i32 = date.year();
        let m: u8 = date.month();
        let d: u8 = date.day();
        let yd: u32 = date.day_of_year() as u32;

        let near_easter: bool = if 1901 <= y && y <= 2199 {
            let em: u32 = easter_monday(y as usize, false) as u32;
            yd == em || yd == em + 38 || yd == em + 49 || yd == em + 59
        } else {
            false
        };

        (d == 1 && m == 1)
            || (d == 6 && m == 1)
            || near_easter
            || (d == 1 && m == 5)
            || (d == 15 && m == 8)
            || (d == 26 && m == 10 && y >= 1967)
            || (d == 12 && m == 11 && y >= 1919 && y <= 1934)
            || (d == 1 && m == 11)
            || (d == 8 && m == 12)
            || (d == 25 && m == 12)
            || (d == 26 && m == 12)
    }
}

} // verus!
