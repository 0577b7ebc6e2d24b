//! General calendar and holiday related functions: date unpacking, weekend
//! tests, Easter Monday, and first/last occurrences of a weekday within a
//! month.

use vstd::prelude::*;

use crate::date::{
    days_before_month, is_leap, is_leap_year, spec_day_of_year, spec_days_in_month, spec_serial,
    spec_weekday_index, valid_ymd, weekday_from_index, weekday_index, CalendarError, Date, Weekday,
    MAX_YEAR, MIN_YEAR,
};

verus! {

/// Years for which the Easter Monday computation is offered, matching the
/// bounded historical range of published ecclesiastical tables.
pub open spec fn easter_supported(y: int) -> bool {
    1901 <= y <= 2199
}

/// Day of year of Western (Gregorian) Easter Monday, by the standard
/// Meeus/Jones/Butcher computus for Easter Sunday, plus one day.
pub open spec fn spec_easter_monday_western(y: int) -> int {
    let a: int = y % 19;
    let b: int = y / 100;
    let c: int = y % 100;
    let d: int = b / 4;
    let e: int = b % 4;
    let f: int = (b + 8) / 25;
    let g: int = (b - f + 1) / 3;
    let h: int = (19 * a + b - d - g + 15) % 30;
    let i: int = c / 4;
    let k: int = c % 4;
    let l: int = (32 + 2 * e + 2 * i - h - k) % 7;
    let m: int = (a + 11 * h + 22 * l) / 451;
    let month: int = (h + l - 7 * m + 114) / 31;
    let day: int = (h + l - 7 * m + 114) % 31 + 1;
    days_before_month(y, month) + day + 1
}

/// Day of year of Orthodox Easter Monday: the Julian computus for Easter
/// Sunday, converted to the Gregorian calendar by the century-dependent
/// offset between the two calendars, plus one day.
pub open spec fn spec_easter_monday_orthodox(y: int) -> int {
    let a: int = y % 4;
    let b: int = y % 7;
    let c: int = y % 19;
    let d: int = (19 * c + 15) % 30;
    let e: int = (2 * a + 4 * b - d + 34) % 7;
    let sum: int = d + e + 114;
    let month: int = sum / 31;
    let day: int = sum % 31 + 1;
    let offset: int = y / 100 - y / 100 / 4 - 2;
    days_before_month(y, month) + day + offset + 1
}

/// Day of year of Easter Monday for the requested rite.
pub open spec fn spec_easter_monday(y: int, is_orthodox: bool) -> int {
    if is_orthodox {
        spec_easter_monday_orthodox(y)
    } else {
        spec_easter_monday_western(y)
    }
}

/// Returns the Easter Monday for the given year, as a day of year. The
/// year must lie in the supported range 1901-2199.
pub fn easter_monday(year: usize, is_orthodox: bool) -> (em: u16)
    requires
        easter_supported(year as int),
    ensures
        em == spec_easter_monday(year as int, is_orthodox),
{
    let leap: u16 = if is_leap(year as i32) { 1 } else { 0 };
    if is_orthodox {
        let a: usize = year % 4;
        let b: usize = year % 7;
        let c: usize = year % 19;
        let d: usize = (19 * c + 15) % 30;
        let e: usize = (2 * a + 4 * b + 34 - d) % 7;
        let sum: usize = d + e + 114;
        let month: usize = sum / 31;
        let day: usize = sum % 31 + 1;
        let offset: usize = year / 100 - year / 100 / 4 - 2;
        proof {
            assert(2 * (year as int % 4) + 4 * (year as int % 7) + 34
                - (19 * (year as int % 19) + 15) % 30 >= 0);
        }
        let prefix: u16 = if month == 3 { 59 + leap } else { 90 + leap };
        prefix + day as u16 + offset as u16 + 1
    } else {
        let a: usize = year % 19;
        let b: usize = year / 100;
        let c: usize = year % 100;
        let d: usize = b / 4;
        let e: usize = b % 4;
        let f: usize = (b + 8) / 25;
        let g: usize = (b + 1 - f) / 3;
        let h: usize = (19 * a + b + 15 - d - g) % 30;
        let i: usize = c / 4;
        let k: usize = c % 4;
        let l: usize = (32 + 2 * e + 2 * i - h - k) % 7;
        let m: usize = (a + 11 * h + 22 * l) / 451;
        let month: usize = (h + l + 114 - 7 * m) / 31;
        let day: usize = (h + l + 114 - 7 * m) % 31 + 1;
        let prefix: u16 = if month == 3 { 59 + leap } else { 90 + leap };
        prefix + day as u16 + 1
    }
}

/// Unpacks a `Date` into its components, in the following form:
///
/// (year, month (1-12), day of month (1-31), weekday, day of year (1-366),
/// Easter Monday of the date's year as a day of year)
///
/// The date's year must lie in the range for which Easter Monday is
/// offered, 1901-2199.
pub fn unpack_date(date: Date, is_orthodox: bool) -> (r: (i32, u8, u8, Weekday, u16, u16))
    requires
        easter_supported(date.spec_year()),
    ensures
        r.0 == date.spec_year(),
        r.1 == date.spec_month(),
        r.2 == date.spec_day(),
        r.3 == date.spec_weekday(),
        r.4 == spec_day_of_year(date.spec_year(), date.spec_month(), date.spec_day()),
        r.5 == spec_easter_monday(date.spec_year(), is_orthodox),
{
    let y: i32 = date.year();
    let m: u8 = date.month();
    let d: u8 = date.day();
    let wd: Weekday = date.weekday();
    let yd: u16 = date.day_of_year();
    let em: u16 = easter_monday(y as usize, is_orthodox);
    (y, m, d, wd, yd, em)
}

/// Whether the date falls on a Saturday or a Sunday.
pub open spec fn spec_is_weekend(d: Date) -> bool {
    spec_weekday_index(d.spec_year(), d.spec_month(), d.spec_day()) >= 5
}

/// Checks if date is a weekend.
pub fn is_weekend(date: Date) -> (b: bool)
    ensures
        b == spec_is_weekend(date),
{
    let w = date.weekday();
    w == Weekday::Saturday || w == Weekday::Sunday
}

/// Check if the date is a weekday.
pub fn is_weekday(date: Date) -> (b: bool)
    ensures
        b == !spec_is_weekend(date),
{
    !is_weekend(date)
}

/// Whether the date (y, m, d) is the last calendar day of February.
pub open spec fn spec_is_last_day_of_february(y: int, m: int, d: int) -> bool {
    m == 2 && d == spec_days_in_month(y, 2)
}

/// Checks if the date is the last calendar day of February (the 28th, or the
/// 29th in a leap year).
pub fn is_last_day_of_february(date: Date) -> (b: bool)
    ensures
        b == spec_is_last_day_of_february(date.spec_year(), date.spec_month(), date.spec_day()),
{
    proof { use_type_invariant(&date); }
    date.month() == 2 && date.day() == crate::date::days_in_month(date.year(), 2)
}

/// Number of February 29ths whose year lies in `[y_lo, y_hi]` and whose
/// serial day number lies in `[a, b]`.
pub open spec fn leap_days_in(y_lo: int, y_hi: int, a: int, b: int) -> int
    decreases y_hi + 1 - y_lo,
{
    if y_lo > y_hi {
        0
    } else {
        leap_days_in(y_lo, y_hi - 1, a, b)
            + if is_leap_year(y_hi) && a <= spec_serial(y_hi, 2, 29) <= b { 1int } else { 0int }
    }
}

/// Counts the February 29ths with year in `[y_lo, y_hi]` and serial day
/// number in `[a, b]`.
pub(crate) fn leap_days_between_serials(y_lo: i32, y_hi: i32, a: u32, b: u32) -> (n: u32)
    requires
        MIN_YEAR <= y_lo,
        y_hi <= MAX_YEAR,
    ensures
        n == leap_days_in(y_lo as int, y_hi as int, a as int, b as int),
{
    let mut count: u32 = 0;
    let mut y: i32 = y_lo;
    while y <= y_hi
        invariant
            MIN_YEAR <= y_lo,
            y_hi <= MAX_YEAR,
            y_lo <= y,
            y == y_lo || y <= y_hi + 1,
            count <= y - y_lo,
            count == leap_days_in(y_lo as int, y as int - 1, a as int, b as int),
        decreases y_hi + 1 - y,
    {
        if is_leap(y) {
            let fs: u32 = crate::date::serial_for(y, 2, 29);
            if a <= fs && fs <= b {
                count = count + 1;
            }
        }
        y = y + 1;
    }
    count
}

/// Whether any February 29 falls within `[start_date, end_date)`.
pub open spec fn spec_contains_leap_day(s: Date, e: Date) -> bool {
    leap_days_in(s.spec_year(), e.spec_year(), s.serial_of(), e.serial_of() - 1) > 0
}

/// Checks whether the range `[start_date, end_date)` contains a leap day
/// (February 29).
pub fn contains_leap_year(start_date: Date, end_date: Date) -> (b: bool)
    ensures
        b == spec_contains_leap_day(start_date, end_date),
{
    proof {
        use_type_invariant(&start_date);
        use_type_invariant(&end_date);
        crate::date::lemma_serial_bounds(
            end_date.spec_year(), end_date.spec_month(), end_date.spec_day());
    }
    let a: u32 = start_date.serial();
    let b: u32 = end_date.serial();
    leap_days_between_serials(start_date.year(), end_date.year(), a, b - 1) > 0
}

/// Number of February 29ths strictly between the two dates.
pub open spec fn spec_leap_day_count(s: Date, e: Date) -> int {
    leap_days_in(s.spec_year(), e.spec_year(), s.serial_of() + 1, e.serial_of() - 1)
}

/// Counts the leap days (February 29ths) strictly between the two dates.
pub fn leap_year_count(start_date: Date, end_date: Date) -> (n: u32)
    ensures
        n == spec_leap_day_count(start_date, end_date),
{
    proof {
        use_type_invariant(&start_date);
        use_type_invariant(&end_date);
        crate::date::lemma_serial_bounds(
            end_date.spec_year(), end_date.spec_month(), end_date.spec_day());
        crate::date::lemma_serial_bounds(
            start_date.spec_year(), start_date.spec_month(), start_date.spec_day());
    }
    let a: u32 = start_date.serial();
    let b: u32 = end_date.serial();
    leap_days_between_serials(start_date.year(), end_date.year(), a + 1, b - 1)
}

/// Function to get the weekday of the first day of the month.
pub fn get_first_day_of_month(year: i32, month: u8) -> (r: Result<Weekday, CalendarError>)
    ensures
        valid_ymd(year as int, month as int, 1) ==> (r matches Ok(w)
            && w == weekday_from_index(spec_weekday_index(year as int, month as int, 1))),
        !valid_ymd(year as int, month as int, 1) ==> (r matches Err(e)
            && e == CalendarError::InvalidDate),
{
    match Date::new(year, month, 1) {
        Ok(d) => Ok(d.weekday()),
        Err(e) => Err(e),
    }
}

/// Function to get the weekday of the last day of the month.
pub fn get_last_day_of_month(year: i32, month: u8) -> (r: Result<Weekday, CalendarError>)
    ensures
        valid_ymd(year as int, month as int, 1) ==> (r matches Ok(w)
            && w == weekday_from_index(spec_weekday_index(
                year as int, month as int, spec_days_in_month(year as int, month as int)))),
        !valid_ymd(year as int, month as int, 1) ==> (r matches Err(e)
            && e == CalendarError::InvalidDate),
{
    if year < MIN_YEAR || year > MAX_YEAR || month < 1 || month > 12 {
        Err(CalendarError::InvalidDate)
    } else {
        let dim: u8 = crate::date::days_in_month(year, month);
        match Date::new(year, month, dim) {
            Ok(d) => Ok(d.weekday()),
            Err(e) => Err(e),
        }
    }
}

/// Index (0 = Monday, ..., 6 = Sunday) of a weekday, as an executable value.
fn weekday_number(w: Weekday) -> (n: u8)
    ensures
        n == weekday_index(w),
{
    match w {
        Weekday::Monday => 0,
        Weekday::Tuesday => 1,
        Weekday::Wednesday => 2,
        Weekday::Thursday => 3,
        Weekday::Friday => 4,
        Weekday::Saturday => 5,
        Weekday::Sunday => 6,
    }
}

/// Advancing a serial number by the gap to a target weekday index lands on
/// that weekday.
proof fn lemma_weekday_forward(s: int, delta: int, t: int)
    requires
        s >= 0,
        0 <= t < 7,
        delta == (7 + t - (s % 7)) % 7,
    ensures
        0 <= delta < 7,
        (s + delta) % 7 == t,
{
    let w0: int = s % 7;
    vstd::arithmetic::div_mod::lemma_mod_bound(s, 7);
    if 7 + t - w0 < 7 {
        vstd::arithmetic::div_mod::lemma_small_mod((7 + t - w0) as nat, 7);
    } else {
        vstd::arithmetic::div_mod::lemma_mod_multiples_vanish(1, t - w0, 7);
        vstd::arithmetic::div_mod::lemma_small_mod((t - w0) as nat, 7);
    }
    vstd::arithmetic::div_mod::lemma_add_mod_noop(s, delta, 7);
    vstd::arithmetic::div_mod::lemma_small_mod(delta as nat, 7);
    if w0 + delta >= 7 {
        vstd::arithmetic::div_mod::lemma_mod_multiples_vanish(1, w0 + delta - 7, 7);
    }
    vstd::arithmetic::div_mod::lemma_small_mod(t as nat, 7);
}

/// Retreating a serial number by the gap from a target weekday index lands on
/// that weekday.
proof fn lemma_weekday_backward(s: int, delta: int, t: int)
    requires
        s >= 7,
        0 <= t < 7,
        delta == (7 + (s % 7) - t) % 7,
    ensures
        0 <= delta < 7,
        (s - delta) % 7 == t,
{
    let w0: int = s % 7;
    vstd::arithmetic::div_mod::lemma_mod_bound(s, 7);
    if 7 + w0 - t < 7 {
        vstd::arithmetic::div_mod::lemma_small_mod((7 + w0 - t) as nat, 7);
    } else {
        vstd::arithmetic::div_mod::lemma_mod_multiples_vanish(1, w0 - t, 7);
        vstd::arithmetic::div_mod::lemma_small_mod((w0 - t) as nat, 7);
    }
    vstd::arithmetic::div_mod::lemma_sub_mod_noop(s, delta, 7);
    vstd::arithmetic::div_mod::lemma_small_mod(delta as nat, 7);
    if w0 - delta < 0 {
        vstd::arithmetic::div_mod::lemma_mod_multiples_vanish(-1, w0 - delta + 7, 7);
        vstd::arithmetic::div_mod::lemma_small_mod((w0 - delta + 7) as nat, 7);
    } else {
        vstd::arithmetic::div_mod::lemma_small_mod((w0 - delta) as nat, 7);
    }
    vstd::arithmetic::div_mod::lemma_small_mod(t as nat, 7);
}

/// The first date of the given month that falls on the target weekday.
fn first_weekday_of_month(year: i32, month: u8, target: Weekday) -> (r: Result<
    Date,
    CalendarError,
>)
    ensures
        valid_ymd(year as int, month as int, 1) ==> (r matches Ok(d)
            && d.spec_year() == year && d.spec_month() == month
            && 1 <= d.spec_day() <= 7 && d.spec_weekday() == target),
        !valid_ymd(year as int, month as int, 1) ==> (r matches Err(e)
            && e == CalendarError::InvalidDate),
{
    let first = match Date::new(year, month, 1) {
        Ok(d) => d,
        Err(e) => {
            return Err(e);
        },
    };
    let w0: u8 = weekday_number(first.weekday());
    let t: u8 = weekday_number(target);
    let delta: u8 = (7 + t - w0) % 7;
    proof {
        crate::date::lemma_serial_bounds(year as int, month as int, 1);
        lemma_weekday_forward(first.serial_of(), delta as int, t as int);
        assert(spec_serial(year as int, month as int, 1 + delta)
            == spec_serial(year as int, month as int, 1) + delta);
        assert(weekday_from_index(weekday_index(target)) == target);
    }
    match Date::new(year, month, 1 + delta) {
        Ok(d) => Ok(d),
        Err(e) => Err(e),
    }
}

/// The last date of the given month that falls on the target weekday.
fn last_weekday_of_month(year: i32, month: u8, target: Weekday) -> (r: Result<
    Date,
    CalendarError,
>)
    ensures
        valid_ymd(year as int, month as int, 1) ==> (r matches Ok(d)
            && d.spec_year() == year && d.spec_month() == month
            && spec_days_in_month(year as int, month as int) - 7 < d.spec_day()
            && d.spec_day() <= spec_days_in_month(year as int, month as int)
            && d.spec_weekday() == target),
        !valid_ymd(year as int, month as int, 1) ==> (r matches Err(e)
            && e == CalendarError::InvalidDate),
{
    if year < MIN_YEAR || year > MAX_YEAR || month < 1 || month > 12 {
        return Err(CalendarError::InvalidDate);
    }
    let dim: u8 = crate::date::days_in_month(year, month);
    let last = match Date::new(year, month, dim) {
        Ok(d) => d,
        Err(e) => {
            return Err(e);
        },
    };
    let wl: u8 = weekday_number(last.weekday());
    let t: u8 = weekday_number(target);
    let delta: u8 = (7 + wl - t) % 7;
    proof {
        crate::date::lemma_serial_bounds(year as int, month as int, dim as int);
        assert(last.serial_of() >= 7);
        lemma_weekday_backward(last.serial_of(), delta as int, t as int);
        assert(spec_serial(year as int, month as int, dim - delta)
            == spec_serial(year as int, month as int, dim as int) - delta);
        assert(weekday_from_index(weekday_index(target)) == target);
    }
    match Date::new(year, month, dim - delta) {
        Ok(d) => Ok(d),
        Err(e) => Err(e),
    }
}

/// Function to get the date of the first Monday of the month.
pub fn get_first_monday_of_month(year: i32, month: u8) -> (r: Result<Date, CalendarError>)
    ensures
        valid_ymd(year as int, month as int, 1) ==> (r matches Ok(d)
            && d.spec_year() == year && d.spec_month() == month
            && 1 <= d.spec_day() <= 7 && d.spec_weekday() == Weekday::Monday),
        !valid_ymd(year as int, month as int, 1) ==> (r matches Err(e)
            && e == CalendarError::InvalidDate),
{
    first_weekday_of_month(year, month, Weekday::Monday)
}

/// Function to get the date of the first Tuesday of the month.
pub fn get_first_tuesday_of_month(year: i32, month: u8) -> (r: Result<Date, CalendarError>)
    ensures
        valid_ymd(year as int, month as int, 1) ==> (r matches Ok(d)
            && d.spec_year() == year && d.spec_month() == month
            && 1 <= d.spec_day() <= 7 && d.spec_weekday() == Weekday::Tuesday),
        !valid_ymd(year as int, month as int, 1) ==> (r matches Err(e)
            && e == CalendarError::InvalidDate),
{
    first_weekday_of_month(year, month, Weekday::Tuesday)
}

/// Function to get the date of the first Wednesday of the month.
pub fn get_first_wednesday_of_month(year: i32, month: u8) -> (r: Result<Date, CalendarError>)
    ensures
        valid_ymd(year as int, month as int, 1) ==> (r matches Ok(d)
            && d.spec_year() == year && d.spec_month() == month
            && 1 <= d.spec_day() <= 7 && d.spec_weekday() == Weekday::Wednesday),
        !valid_ymd(year as int, month as int, 1) ==> (r matches Err(e)
            && e == CalendarError::InvalidDate),
{
    first_weekday_of_month(year, month, Weekday::Wednesday)
}

/// Function to get the date of the first Thursday of the month.
pub fn get_first_thursday_of_month(year: i32, month: u8) -> (r: Result<Date, CalendarError>)
    ensures
        valid_ymd(year as int, month as int, 1) ==> (r matches Ok(d)
            && d.spec_year() == year && d.spec_month() == month
            && 1 <= d.spec_day() <= 7 && d.spec_weekday() == Weekday::Thursday),
        !valid_ymd(year as int, month as int, 1) ==> (r matches Err(e)
            && e == CalendarError::InvalidDate),
{
    first_weekday_of_month(year, month, Weekday::Thursday)
}

/// Function to get the date of the first Friday of the month.
pub fn get_first_friday_of_month(year: i32, month: u8) -> (r: Result<Date, CalendarError>)
    ensures
        valid_ymd(year as int, month as int, 1) ==> (r matches Ok(d)
            && d.spec_year() == year && d.spec_month() == month
            && 1 <= d.spec_day() <= 7 && d.spec_weekday() == Weekday::Friday),
        !valid_ymd(year as int, month as int, 1) ==> (r matches Err(e)
            && e == CalendarError::InvalidDate),
{
    first_weekday_of_month(year, month, Weekday::Friday)
}

/// Function to get the date of the first Saturday of the month.
pub fn get_first_saturday_of_month(year: i32, month: u8) -> (r: Result<Date, CalendarError>)
    ensures
        valid_ymd(year as int, month as int, 1) ==> (r matches Ok(d)
            && d.spec_year() == year && d.spec_month() == month
            && 1 <= d.spec_day() <= 7 && d.spec_weekday() == Weekday::Saturday),
        !valid_ymd(year as int, month as int, 1) ==> (r matches Err(e)
            && e == CalendarError::InvalidDate),
{
    first_weekday_of_month(year, month, Weekday::Saturday)
}

/// Function to get the date of the first Sunday of the month.
pub fn get_first_sunday_of_month(year: i32, month: u8) -> (r: Result<Date, CalendarError>)
    ensures
        valid_ymd(year as int, month as int, 1) ==> (r matches Ok(d)
            && d.spec_year() == year && d.spec_month() == month
            && 1 <= d.spec_day() <= 7 && d.spec_weekday() == Weekday::Sunday),
        !valid_ymd(year as int, month as int, 1) ==> (r matches Err(e)
            && e == CalendarError::InvalidDate),
{
    first_weekday_of_month(year, month, Weekday::Sunday)
}

/// Function to get the date of the last Monday of the month.
pub fn get_last_monday_of_month(year: i32, month: u8) -> (r: Result<Date, CalendarError>)
    ensures
        valid_ymd(year as int, month as int, 1) ==> (r matches Ok(d)
            && d.spec_year() == year && d.spec_month() == month
            && spec_days_in_month(year as int, month as int) - 7 < d.spec_day()
            && d.spec_day() <= spec_days_in_month(year as int, month as int)
            && d.spec_weekday() == Weekday::Monday),
        !valid_ymd(year as int, month as int, 1) ==> (r matches Err(e)
            && e == CalendarError::InvalidDate),
{
    last_weekday_of_month(year, month, Weekday::Monday)
}

/// Function to get the date of the last Tuesday of the month.
pub fn get_last_tuesday_of_month(year: i32, month: u8) -> (r: Result<Date, CalendarError>)
    ensures
        valid_ymd(year as int, month as int, 1) ==> (r matches Ok(d)
            && d.spec_year() == year && d.spec_month() == month
            && spec_days_in_month(year as int, month as int) - 7 < d.spec_day()
            && d.spec_day() <= spec_days_in_month(year as int, month as int)
            && d.spec_weekday() == Weekday::Tuesday),
        !valid_ymd(year as int, month as int, 1) ==> (r matches Err(e)
            && e == CalendarError::InvalidDate),
{
    last_weekday_of_month(year, month, Weekday::Tuesday)
}

/// Function to get the date of the last Wednesday of the month.
pub fn get_last_wednesday_of_month(year: i32, month: u8) -> (r: Result<Date, CalendarError>)
    ensures
        valid_ymd(year as int, month as int, 1) ==> (r matches Ok(d)
            && d.spec_year() == year && d.spec_month() == month
            && spec_days_in_month(year as int, month as int) - 7 < d.spec_day()
            && d.spec_day() <= spec_days_in_month(year as int, month as int)
            && d.spec_weekday() == Weekday::Wednesday),
        !valid_ymd(year as int, month as int, 1) ==> (r matches Err(e)
            && e == CalendarError::InvalidDate),
{
    last_weekday_of_month(year, month, Weekday::Wednesday)
}

/// Function to get the date of the last Thursday of the month.
pub fn get_last_thursday_of_month(year: i32, month: u8) -> (r: Result<Date, CalendarError>)
    ensures
        valid_ymd(year as int, month as int, 1) ==> (r matches Ok(d)
            && d.spec_year() == year && d.spec_month() == month
            && spec_days_in_month(year as int, month as int) - 7 < d.spec_day()
            && d.spec_day() <= spec_days_in_month(year as int, month as int)
            && d.spec_weekday() == Weekday::Thursday),
        !valid_ymd(year as int, month as int, 1) ==> (r matches Err(e)
            && e == CalendarError::InvalidDate),
{
    last_weekday_of_month(year, month, Weekday::Thursday)
}

/// Function to get the date of the last Friday of the month.
pub fn get_last_friday_of_month(year: i32, month: u8) -> (r: Result<Date, CalendarError>)
    ensures
        valid_ymd(year as int, month as int, 1) ==> (r matches Ok(d)
            && d.spec_year() == year && d.spec_month() == month
            && spec_days_in_month(year as int, month as int) - 7 < d.spec_day()
            && d.spec_day() <= spec_days_in_month(year as int, month as int)
            && d.spec_weekday() == Weekday::Friday),
        !valid_ymd(year as int, month as int, 1) ==> (r matches Err(e)
            && e == CalendarError::InvalidDate),
{
    last_weekday_of_month(year, month, Weekday::Friday)
}

/// Function to get the date of the last Saturday of the month.
pub fn get_last_saturday_of_month(year: i32, month: u8) -> (r: Result<Date, CalendarError>)
    ensures
        valid_ymd(year as int, month as int, 1) ==> (r matches Ok(d)
            && d.spec_year() == year && d.spec_month() == month
            && spec_days_in_month(year as int, month as int) - 7 < d.spec_day()
            && d.spec_day() <= spec_days_in_month(year as int, month as int)
            && d.spec_weekday() == Weekday::Saturday),
        !valid_ymd(year as int, month as int, 1) ==> (r matches Err(e)
            && e == CalendarError::InvalidDate),
{
    last_weekday_of_month(year, month, Weekday::Saturday)
}

/// Function to get the date of the last Sunday of the month.
pub fn get_last_sunday_of_month(year: i32, month: u8) -> (r: Result<Date, CalendarError>)
    ensures
        valid_ymd(year as int, month as int, 1) ==> (r matches Ok(d)
            && d.spec_year() == year && d.spec_month() == month
            && spec_days_in_month(year as int, month as int) - 7 < d.spec_day()
            && d.spec_day() <= spec_days_in_month(year as int, month as int)
            && d.spec_weekday() == Weekday::Sunday),
        !valid_ymd(year as int, month as int, 1) ==> (r matches Err(e)
            && e == CalendarError::InvalidDate),
{
    last_weekday_of_month(year, month, Weekday::Sunday)
}

} // verus!

