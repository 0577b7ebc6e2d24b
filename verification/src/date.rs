//! The calendar date type: an immutable, always-valid (year, month, day)
//! triple in the proleptic Gregorian calendar, together with the spec-level
//! arithmetic (leap years, month lengths, day serial numbers, weekdays) that
//! the rest of the library is specified against.

use vstd::prelude::*;

verus! {

/// Smallest year a `Date` may hold.
pub const MIN_YEAR: i32 = -9999;

/// Largest year a `Date` may hold.
pub const MAX_YEAR: i32 = 9999;

/// The two error conditions of the library: a date built from raw components
/// that do not name a real calendar day, and a day-count convention that
/// cannot be computed from two dates alone.
#[derive(Clone, Copy, Debug, PartialEq, Eq, Structural)]
pub enum CalendarError {
    /// The (year, month, day) components do not form a valid calendar date.
    InvalidDate,
    /// The requested day-count convention needs coupon period and frequency
    /// inputs and cannot be computed from two dates alone.
    UnsupportedConvention,
}

/// Whether `y` is a leap year in the proleptic Gregorian calendar.
pub open spec fn is_leap_year(y: int) -> bool {
    (y % 4 == 0 && y % 100 != 0) || y % 400 == 0
}

/// Number of days in month `m` (1-12) of year `y`.
pub open spec fn spec_days_in_month(y: int, m: int) -> int {
    if m == 2 {
        if is_leap_year(y) { 29 } else { 28 }
    } else if m == 4 || m == 6 || m == 9 || m == 11 {
        30
    } else {
        31
    }
}

/// Whether (y, m, d) names a real calendar day within the supported year range.
pub open spec fn valid_ymd(y: int, m: int, d: int) -> bool {
    &&& MIN_YEAR <= y <= MAX_YEAR
    &&& 1 <= m <= 12
    &&& 1 <= d <= spec_days_in_month(y, m)
}

/// An immutable calendar date. Every value of this type satisfies
/// `valid_ymd` by construction.
#[derive(Clone, Copy, Debug, PartialEq, Eq, Structural, Hash, PartialOrd, Ord)]
pub struct Date {
    year: i32,
    month: u8,
    day: u8,
}

impl Date {
    /// The date's year, as a mathematical integer.
    pub closed spec fn spec_year(self) -> int {
        self.year as int
    }

    /// The date's month (1-12), as a mathematical integer.
    pub closed spec fn spec_month(self) -> int {
        self.month as int
    }

    /// The date's day of month (1-31), as a mathematical integer.
    pub closed spec fn spec_day(self) -> int {
        self.day as int
    }

    /// Well-formedness: the components name a real calendar day.
    pub open spec fn valid(self) -> bool {
        valid_ymd(self.spec_year(), self.spec_month(), self.spec_day())
    }

    /// Type invariant: every `Date` value is a valid calendar day.
    #[verifier::type_invariant]
    pub open spec fn type_inv(self) -> bool {
        self.valid()
    }

    /// Build a date from raw components, rejecting invalid ones.
    pub fn new(year: i32, month: u8, day: u8) -> (r: Result<Date, CalendarError>)
        ensures
            valid_ymd(year as int, month as int, day as int) ==> (r matches Ok(d)
                && d.spec_year() == year && d.spec_month() == month && d.spec_day() == day),
            !valid_ymd(year as int, month as int, day as int) ==> (r matches Err(e)
                && e == CalendarError::InvalidDate),
    {
        if year < MIN_YEAR || year > MAX_YEAR || month < 1 || month > 12 {
            Err(CalendarError::InvalidDate)
        } else if day < 1 || day > days_in_month(year, month) {
            Err(CalendarError::InvalidDate)
        } else {
            Ok(Date { year, month, day })
        }
    }

    /// The date's year.
    pub fn year(&self) -> (y: i32)
        ensures
            y == self.spec_year(),
    {
        self.year
    }

    /// The date's month (1-12).
    pub fn month(&self) -> (m: u8)
        ensures
            m == self.spec_month(),
    {
        self.month
    }

    /// The date's day of month.
    pub fn day(&self) -> (d: u8)
        ensures
            d == self.spec_day(),
    {
        self.day
    }
}

/// Number of days of year `y` that precede the first day of month `m`.
pub open spec fn days_before_month(y: int, m: int) -> int {
    let leap: int = if is_leap_year(y) { 1 } else { 0 };
    if m == 1 { 0 }
    else if m == 2 { 31 }
    else if m == 3 { 59 + leap }
    else if m == 4 { 90 + leap }
    else if m == 5 { 120 + leap }
    else if m == 6 { 151 + leap }
    else if m == 7 { 181 + leap }
    else if m == 8 { 212 + leap }
    else if m == 9 { 243 + leap }
    else if m == 10 { 273 + leap }
    else if m == 11 { 304 + leap }
    else { 334 + leap }
}

/// Day of year (1-366) of the date (y, m, d).
pub open spec fn spec_day_of_year(y: int, m: int, d: int) -> int {
    days_before_month(y, m) + d
}

/// Number of days from a fixed reference day to the first day of year `y`.
///
/// The formula counts leap years with the year index shifted by 10400 (a
/// multiple of 400, so the leap pattern is unchanged), which keeps every
/// quantity non-negative over the supported year range. Only differences of
/// serial numbers are meaningful.
pub open spec fn days_before_year(y: int) -> int {
    let t: int = y + 10399;
    365 * t + t / 4 - t / 100 + t / 400
}

/// The serial day number of (y, m, d): consecutive calendar days have
/// consecutive serial numbers, and later dates have larger ones.
pub open spec fn spec_serial(y: int, m: int, d: int) -> int {
    days_before_year(y) + days_before_month(y, m) + d - 1
}

/// Index of the weekday of (y, m, d): 0 = Monday, ..., 5 = Saturday,
/// 6 = Sunday.
pub open spec fn spec_weekday_index(y: int, m: int, d: int) -> int {
    spec_serial(y, m, d) % 7
}

/// A day of the week.
#[derive(Clone, Copy, Debug, PartialEq, Eq, Structural, Hash)]
pub enum Weekday {
    /// Monday.
    Monday,
    /// Tuesday.
    Tuesday,
    /// Wednesday.
    Wednesday,
    /// Thursday.
    Thursday,
    /// Friday.
    Friday,
    /// Saturday.
    Saturday,
    /// Sunday.
    Sunday,
}

/// The weekday with index `i` (0 = Monday, ..., 6 = Sunday).
pub open spec fn weekday_from_index(i: int) -> Weekday {
    if i == 0 { Weekday::Monday }
    else if i == 1 { Weekday::Tuesday }
    else if i == 2 { Weekday::Wednesday }
    else if i == 3 { Weekday::Thursday }
    else if i == 4 { Weekday::Friday }
    else if i == 5 { Weekday::Saturday }
    else { Weekday::Sunday }
}

/// Index (0 = Monday, ..., 6 = Sunday) of weekday `w`.
pub open spec fn weekday_index(w: Weekday) -> int {
    match w {
        Weekday::Monday => 0,
        Weekday::Tuesday => 1,
        Weekday::Wednesday => 2,
        Weekday::Thursday => 3,
        Weekday::Friday => 4,
        Weekday::Saturday => 5,
        Weekday::Sunday => 6,
    }
}

impl Date {
    /// The date's serial day number.
    pub open spec fn serial_of(self) -> int {
        spec_serial(self.spec_year(), self.spec_month(), self.spec_day())
    }

    /// The date's weekday, at the spec level.
    pub open spec fn spec_weekday(self) -> Weekday {
        weekday_from_index(spec_weekday_index(self.spec_year(), self.spec_month(), self.spec_day()))
    }
}

/// Whether `year` is a leap year.
pub fn is_leap(year: i32) -> (b: bool)
    requires
        MIN_YEAR <= year <= MAX_YEAR,
    ensures
        b == is_leap_year(year as int),
{
    let t: u32 = (year + 10400) as u32;
    proof {
        vstd::arithmetic::div_mod::lemma_mod_multiples_vanish(2600, year as int, 4);
        vstd::arithmetic::div_mod::lemma_mod_multiples_vanish(104, year as int, 100);
        vstd::arithmetic::div_mod::lemma_mod_multiples_vanish(26, year as int, 400);
    }
    (t % 4 == 0 && t % 100 != 0) || t % 400 == 0
}

/// Number of days in month `m` (1-12) of year `year`.
pub fn days_in_month(year: i32, month: u8) -> (n: u8)
    requires
        MIN_YEAR <= year <= MAX_YEAR,
        1 <= month <= 12,
    ensures
        n == spec_days_in_month(year as int, month as int),
{
    if month == 2 {
        if is_leap(year) { 29 } else { 28 }
    } else if month == 4 || month == 6 || month == 9 || month == 11 {
        30
    } else {
        31
    }
}

/// Stepping the dividend by one raises the quotient exactly when the new
/// dividend is a multiple of the divisor.
proof fn lemma_div_step(a: int, k: int)
    requires
        k > 0,
    ensures
        (a + 1) / k == a / k + if (a + 1) % k == 0 { 1int } else { 0int },
{
    let q: int = a / k;
    let r: int = a % k;
    vstd::arithmetic::div_mod::lemma_fundamental_div_mod(a, k);
    vstd::arithmetic::div_mod::lemma_mod_bound(a, k);
    if r + 1 == k {
        assert((q + 1) * k == q * k + k) by (nonlinear_arith);
        assert(k * q == q * k) by (nonlinear_arith);
        vstd::arithmetic::div_mod::lemma_fundamental_div_mod_converse(a + 1, k, q + 1, 0);
    } else {
        vstd::arithmetic::div_mod::lemma_fundamental_div_mod_converse(a + 1, k, q, r + 1);
    }
}

/// From one year to the next, the serial count grows by that year's length.
pub proof fn lemma_days_before_year_step(y: int)
    ensures
        days_before_year(y + 1) == days_before_year(y)
            + if is_leap_year(y) { 366int } else { 365int },
{
    let t: int = y + 10399;
    lemma_div_step(t, 4);
    lemma_div_step(t, 100);
    lemma_div_step(t, 400);
    vstd::arithmetic::div_mod::lemma_mod_multiples_vanish(2600, y as int, 4);
    vstd::arithmetic::div_mod::lemma_mod_multiples_vanish(104, y as int, 100);
    vstd::arithmetic::div_mod::lemma_mod_multiples_vanish(26, y as int, 400);
}

/// Later years have strictly larger serial counts, with at least 365 and at
/// most 366 days per year in between.
pub proof fn lemma_days_before_year_monotone(y1: int, y2: int)
    requires
        y1 <= y2,
    ensures
        days_before_year(y1) + 365 * (y2 - y1) <= days_before_year(y2),
        days_before_year(y2) <= days_before_year(y1) + 366 * (y2 - y1),
    decreases y2 - y1,
{
    if y1 < y2 {
        lemma_days_before_year_monotone(y1, y2 - 1);
        lemma_days_before_year_step(y2 - 1);
    }
}

/// Within a year, the day count before month `m2` covers all of month `m1`
/// whenever `m1` comes first.
proof fn lemma_days_before_month_bound(y: int, m1: int, m2: int)
    requires
        1 <= m1 < m2 <= 12,
    ensures
        days_before_month(y, m1) + spec_days_in_month(y, m1) <= days_before_month(y, m2),
{
}

/// The serial number of the calendar successor of a valid date is one more
/// than the date's own serial number, in each of the three carry cases.
pub proof fn lemma_serial_succ(y: int, m: int, d: int)
    requires
        valid_ymd(y, m, d),
    ensures
        d < spec_days_in_month(y, m) ==> spec_serial(y, m, d + 1) == spec_serial(y, m, d) + 1,
        d == spec_days_in_month(y, m) && m < 12 ==> spec_serial(y, m + 1, 1) == spec_serial(y, m, d) + 1,
        d == spec_days_in_month(y, m) && m == 12 ==> spec_serial(y + 1, 1, 1) == spec_serial(y, m, d) + 1,
{
    lemma_days_before_year_step(y);
}

/// Whether (y1, m1, d1) names an earlier calendar day than (y2, m2, d2).
pub open spec fn ymd_lt(y1: int, m1: int, d1: int, y2: int, m2: int, d2: int) -> bool {
    y1 < y2 || (y1 == y2 && (m1 < m2 || (m1 == m2 && d1 < d2)))
}

/// Serial numbers order valid dates exactly as the calendar does.
pub proof fn lemma_serial_monotone(y1: int, m1: int, d1: int, y2: int, m2: int, d2: int)
    requires
        valid_ymd(y1, m1, d1),
        valid_ymd(y2, m2, d2),
        ymd_lt(y1, m1, d1, y2, m2, d2),
    ensures
        spec_serial(y1, m1, d1) < spec_serial(y2, m2, d2),
{
    if y1 == y2 {
        if m1 < m2 {
            lemma_days_before_month_bound(y1, m1, m2);
        }
    } else {
        if m1 < 12 {
            lemma_days_before_month_bound(y1, m1, 12);
        }
        lemma_days_before_year_step(y1);
        lemma_days_before_year_monotone(y1 + 1, y2);
    }
}

/// A valid date is determined by its serial number.
pub proof fn lemma_serial_injective(y1: int, m1: int, d1: int, y2: int, m2: int, d2: int)
    requires
        valid_ymd(y1, m1, d1),
        valid_ymd(y2, m2, d2),
        spec_serial(y1, m1, d1) == spec_serial(y2, m2, d2),
    ensures
        y1 == y2 && m1 == m2 && d1 == d2,
{
    if ymd_lt(y1, m1, d1, y2, m2, d2) {
        lemma_serial_monotone(y1, m1, d1, y2, m2, d2);
    } else if ymd_lt(y2, m2, d2, y1, m1, d1) {
        lemma_serial_monotone(y2, m2, d2, y1, m1, d1);
    }
}

/// Two valid `Date` values with the same serial number are the same date.
pub proof fn lemma_date_serial_injective(a: Date, b: Date)
    requires
        a.valid(),
        b.valid(),
        a.serial_of() == b.serial_of(),
    ensures
        a == b,
{
    lemma_serial_injective(
        a.spec_year(), a.spec_month(), a.spec_day(),
        b.spec_year(), b.spec_month(), b.spec_day(),
    );
}

/// Every valid date's serial number lies between those of the smallest and
/// largest representable dates.
pub proof fn lemma_serial_bounds(y: int, m: int, d: int)
    requires
        valid_ymd(y, m, d),
    ensures
        spec_serial(MIN_YEAR as int, 1, 1) <= spec_serial(y, m, d),
        spec_serial(y, m, d) <= spec_serial(MAX_YEAR as int, 12, 31),
{
    if ymd_lt(MIN_YEAR as int, 1, 1, y, m, d) {
        lemma_serial_monotone(MIN_YEAR as int, 1, 1, y, m, d);
    }
    if ymd_lt(y, m, d, MAX_YEAR as int, 12, 31) {
        lemma_serial_monotone(y, m, d, MAX_YEAR as int, 12, 31);
    }
}

/// Days of year `year` that precede the first day of `month`, as an
/// executable value.
pub(crate) fn month_prefix_days(year: i32, month: u8) -> (n: u16)
    requires
        MIN_YEAR <= year <= MAX_YEAR,
        1 <= month <= 12,
    ensures
        n == days_before_month(year as int, month as int),
{
    let leap: u16 = if is_leap(year) { 1 } else { 0 };
    match month {
        1 => 0,
        2 => 31,
        3 => 59 + leap,
        4 => 90 + leap,
        5 => 120 + leap,
        6 => 151 + leap,
        7 => 181 + leap,
        8 => 212 + leap,
        9 => 243 + leap,
        10 => 273 + leap,
        11 => 304 + leap,
        _ => 334 + leap,
    }
}

/// The serial day number of the valid date (year, month, day), as an
/// executable value.
pub fn serial_for(year: i32, month: u8, day: u8) -> (n: u32)
    requires
        valid_ymd(year as int, month as int, day as int),
    ensures
        n == spec_serial(year as int, month as int, day as int),
{
    let t: u32 = (year + 10399) as u32;
    proof {
        vstd::arithmetic::div_mod::lemma_div_nonincreasing(t as int, 100);
    }
    let before_year: u32 = 365 * t + t / 4 + t / 400 - t / 100;
    before_year + month_prefix_days(year, month) as u32 + day as u32 - 1
}

impl Date {
    /// The date's serial day number, as an executable value.
    pub fn serial(&self) -> (n: u32)
        ensures
            n == self.serial_of(),
    {
        proof { use_type_invariant(self); }
        serial_for(self.year, self.month, self.day)
    }

    /// The date's day of year (1-365, or 1-366 in a leap year).
    pub fn day_of_year(&self) -> (n: u16)
        ensures
            n == spec_day_of_year(self.spec_year(), self.spec_month(), self.spec_day()),
    {
        proof { use_type_invariant(self); }
        month_prefix_days(self.year, self.month) + self.day as u16
    }

    /// The date's weekday.
    pub fn weekday(&self) -> (w: Weekday)
        ensures
            w == self.spec_weekday(),
    {
        let i: u32 = self.serial() % 7;
        if i == 0 { Weekday::Monday }
        else if i == 1 { Weekday::Tuesday }
        else if i == 2 { Weekday::Wednesday }
        else if i == 3 { Weekday::Thursday }
        else if i == 4 { Weekday::Friday }
        else if i == 5 { Weekday::Saturday }
        else { Weekday::Sunday }
    }

    /// The next calendar day, or `None` at the end of the supported range.
    pub fn next_day(&self) -> (r: Option<Date>)
        ensures
            self.serial_of() == spec_serial(MAX_YEAR as int, 12, 31) ==> r is None,
            self.serial_of() != spec_serial(MAX_YEAR as int, 12, 31) ==> (r matches Some(nd)
                && nd.valid() && nd.serial_of() == self.serial_of() + 1),
    {
        proof {
            use_type_invariant(self);
            lemma_serial_succ(self.spec_year(), self.spec_month(), self.spec_day());
            if self.serial_of() == spec_serial(MAX_YEAR as int, 12, 31) {
                lemma_serial_injective(
                    self.spec_year(), self.spec_month(), self.spec_day(),
                    MAX_YEAR as int, 12, 31,
                );
            }
        }
        let dim: u8 = days_in_month(self.year, self.month);
        if self.day < dim {
            Some(Date { year: self.year, month: self.month, day: self.day + 1 })
        } else if self.month < 12 {
            Some(Date { year: self.year, month: self.month + 1, day: 1 })
        } else if self.year < MAX_YEAR {
            Some(Date { year: self.year + 1, month: 1, day: 1 })
        } else {
            None
        }
    }

    /// The previous calendar day, or `None` at the start of the supported
    /// range.
    pub fn prev_day(&self) -> (r: Option<Date>)
        ensures
            self.serial_of() == spec_serial(MIN_YEAR as int, 1, 1) ==> r is None,
            self.serial_of() != spec_serial(MIN_YEAR as int, 1, 1) ==> (r matches Some(pd)
                && pd.valid() && pd.serial_of() == self.serial_of() - 1),
    {
        proof {
            use_type_invariant(self);
            if self.serial_of() == spec_serial(MIN_YEAR as int, 1, 1) {
                lemma_serial_injective(
                    self.spec_year(), self.spec_month(), self.spec_day(),
                    MIN_YEAR as int, 1, 1,
                );
            }
        }
        if self.day > 1 {
            Some(Date { year: self.year, month: self.month, day: self.day - 1 })
        } else if self.month > 1 {
            let dim: u8 = days_in_month(self.year, self.month - 1);
            proof {
                lemma_serial_succ(self.spec_year(), self.spec_month() - 1, dim as int);
            }
            Some(Date { year: self.year, month: self.month - 1, day: dim })
        } else if self.year > MIN_YEAR {
            proof {
                lemma_serial_succ(self.spec_year() - 1, 12, 31);
            }
            Some(Date { year: self.year - 1, month: 12, day: 31 })
        } else {
            None
        }
    }

    /// Whether this date is on or before `other` in calendar order.
    pub fn on_or_before(&self, other: &Date) -> (b: bool)
        ensures
            b == (self.serial_of() <= other.serial_of()),
    {
        self.serial() <= other.serial()
    }

    /// Signed number of whole days from this date to `other` (negative if
    /// `other` is earlier).
    pub fn days_until(&self, other: &Date) -> (n: i64)
        ensures
            n == other.serial_of() - self.serial_of(),
    {
        other.serial() as i64 - self.serial() as i64
    }
}

} // verus!
