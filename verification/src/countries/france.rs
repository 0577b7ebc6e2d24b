//! France holidays and calendar.

use vstd::prelude::*;

use crate::calendar::Calendar;
use crate::date::{spec_day_of_year, Date};
use crate::functions::{easter_monday, easter_supported, spec_easter_monday};

verus! {

/// France national holiday calendar.
pub struct FranceCalendar;

impl Calendar for FranceCalendar {
    open spec fn spec_is_holiday(&self, date: Date) -> bool {
        let y: int = date.spec_year();
        let m: int = date.spec_month();
        let d: int = date.spec_day();
        let yd: int = spec_day_of_year(y, m, d);
        let em: int = spec_easter_monday(y, false);
        // Jour de l'An
        ||| (d == 1 && m == 1)
        // Lundi de Paques
        ||| (easter_supported(y) && yd == em)
        // Fete du Travail
        ||| (d == 1 && m == 5)
        // Victoire 1945
        ||| (d == 8 && m == 5)
        // Ascension
        ||| (d == 10 && m == 5)
        // Pentecote
        ||| (d == 21 && m == 5)
        // Fete nationale
        ||| (d == 14 && m == 7)
        // Assomption
        ||| (d == 15 && m == 8)
        // Toussaint
        ||| (d == 1 && m == 11)
        // Armistice 1918
        ||| (d == 11 && m == 11)
        // Noel
        ||| (d == 25 && m == 12)
    }

    fn name(&self) -> (n: &'static str) {
        "France"
    }

    fn is_holiday(&self, date: Date) -> (h: bool) {
        let y: i32 = date.year();
        let m: u8 = date.month();
        let d: u8 = date.day();
        let yd: u32 = date.day_of_year() as u32;

        let near_easter: bool = if 1901 <= y && y <= 2199 {
            let em: u32 = easter_monday(y as usize, false) as u32;
            yd == em
        } else {
            false
        };

        (d == 1 && m == 1)
            || near_easter
            || (d == 1 && m == 5)
            || (d == 8 && m == 5)
            || (d == 10 && m == 5)
            || (d == 21 && m == 5)
            || (d == 14 && m == 7)
            || (d == 15 && m == 8)
            || (d == 1 && m == 11)
            || (d == 11 && m == 11)
            || (d == 25 && m == 12)
    }
}

} // verus!
