//! The `Calendar` capability: a jurisdiction's holiday rule, with the
//! derived notions of business day and of holiday / business-day
//! enumeration over a date range.

use vstd::prelude::*;

use crate::date::{lemma_date_serial_injective, lemma_serial_bounds, spec_serial, Date, MAX_YEAR};
use crate::functions::{is_weekday, spec_is_weekend};

verus! {

/// Whether `d` is a business day under calendar `cal`: a weekday that is not
/// a holiday.
pub open spec fn spec_is_business_day<C: Calendar>(cal: &C, d: Date) -> bool {
    !spec_is_weekend(d) && !cal.spec_is_holiday(d)
}

/// Calendar trait.
pub trait Calendar: Sized {
    /// The calendar's holiday rule, at the specification level. `is_holiday`
    /// must return exactly this predicate.
    spec fn spec_is_holiday(&self, date: Date) -> bool;

    /// Name of the calendar, typically the country name, but could also be
    /// a region/subdivision or a special calendar, such as a financial
    /// calendar (e.g. NYSE).
    fn name(&self) -> (n: &'static str);

    /// Check if the date is a holiday (but not a weekend).
    /// This is the primary method to implement for a calendar.
    fn is_holiday(&self, date: Date) -> (h: bool)
        ensures
            h == self.spec_is_holiday(date),
    ;

    /// Check if the date is a business day.
    /// A business day is a day that is not a holiday and not a weekend.
    fn is_business_day(&self, date: Date) -> (b: bool)
        ensures
            b == (!spec_is_weekend(date) && !self.spec_is_holiday(date)),
    {
        is_weekday(date) && !self.is_holiday(date)
    }
}

/// Whether the day with serial number `n` is a holiday under `cal`.
pub open spec fn holiday_on<C: Calendar>(cal: &C, n: int) -> bool {
    exists |d: Date| d.valid() && d.serial_of() == n && cal.spec_is_holiday(d)
}

/// Whether the day with serial number `n` is a weekday (not a Saturday or a
/// Sunday).
pub open spec fn weekday_on(n: int) -> bool {
    n % 7 < 5
}

/// Whether the day with serial number `n` is a business day under `cal`.
pub open spec fn business_on<C: Calendar>(cal: &C, n: int) -> bool {
    weekday_on(n) && !holiday_on(cal, n)
}

/// Number of holidays among the days with serial numbers in `[a, b]`.
pub open spec fn count_holidays<C: Calendar>(cal: &C, a: int, b: int) -> int
    decreases b + 1 - a,
{
    if a > b {
        0
    } else {
        count_holidays(cal, a, b - 1) + if holiday_on(cal, b) { 1int } else { 0int }
    }
}

/// Number of business days among the days with serial numbers in `[a, b]`.
pub open spec fn count_business<C: Calendar>(cal: &C, a: int, b: int) -> int
    decreases b + 1 - a,
{
    if a > b {
        0
    } else {
        count_business(cal, a, b - 1) + if business_on(cal, b) { 1int } else { 0int }
    }
}

/// Number of weekdays among the days with serial numbers in `[a, b]`.
pub open spec fn count_weekdays(a: int, b: int) -> int
    decreases b + 1 - a,
{
    if a > b {
        0
    } else {
        count_weekdays(a, b - 1) + if weekday_on(b) { 1int } else { 0int }
    }
}

/// Function to list all holidays for a given range of `Date`s, in ascending
/// order; empty when the range is.
pub fn all_holidays_between<C: Calendar>(cal: &C, start_date: Date, end_date: Date) -> (r: Vec<
    Date,
>)
    ensures
        forall |i: int| 0 <= i < r@.len() ==> ((#[trigger] r@[i]).valid()
            && cal.spec_is_holiday(r@[i])
            && start_date.serial_of() <= r@[i].serial_of() <= end_date.serial_of()),
        forall |i: int, j: int| #![trigger r@[i], r@[j]]
            0 <= i < j < r@.len() ==> r@[i].serial_of() < r@[j].serial_of(),
        forall |d: Date| (d.valid() && start_date.serial_of() <= d.serial_of()
            && d.serial_of() <= end_date.serial_of() && cal.spec_is_holiday(d))
            ==> #[trigger] r@.contains(d),
        r@.len() == count_holidays(cal, start_date.serial_of(), end_date.serial_of()),
{
    let ghost a: int = start_date.serial_of();
    let ghost b: int = end_date.serial_of();
    proof {
        use_type_invariant(&start_date);
        use_type_invariant(&end_date);
        lemma_serial_bounds(end_date.spec_year(), end_date.spec_month(), end_date.spec_day());
    }
    let mut holidays: Vec<Date> = Vec::new();
    let mut temp_date = start_date;
    while temp_date.on_or_before(&end_date)
        invariant_except_break
            a == start_date.serial_of(),
            b == end_date.serial_of(),
            temp_date.valid(),
            a <= temp_date.serial_of(),
            temp_date.serial_of() == a || temp_date.serial_of() <= b + 1,
            b <= spec_serial(MAX_YEAR as int, 12, 31),
            forall |i: int| 0 <= i < holidays@.len() ==> ((#[trigger] holidays@[i]).valid()
                && cal.spec_is_holiday(holidays@[i])
                && a <= holidays@[i].serial_of() <= b
                && holidays@[i].serial_of() < temp_date.serial_of()),
            forall |i: int, j: int| #![trigger holidays@[i], holidays@[j]]
                0 <= i < j < holidays@.len()
                ==> holidays@[i].serial_of() < holidays@[j].serial_of(),
            forall |d: Date| (d.valid() && a <= d.serial_of()
                && d.serial_of() < temp_date.serial_of() && d.serial_of() <= b
                && cal.spec_is_holiday(d)) ==> #[trigger] holidays@.contains(d),
            holidays@.len() == count_holidays(cal, a, temp_date.serial_of() - 1),
        ensures
            forall |i: int| 0 <= i < holidays@.len() ==> ((#[trigger] holidays@[i]).valid()
                && cal.spec_is_holiday(holidays@[i])
                && a <= holidays@[i].serial_of() <= b),
            forall |i: int, j: int| #![trigger holidays@[i], holidays@[j]]
                0 <= i < j < holidays@.len()
                ==> holidays@[i].serial_of() < holidays@[j].serial_of(),
            forall |d: Date| (d.valid() && a <= d.serial_of() && d.serial_of() <= b
                && cal.spec_is_holiday(d)) ==> #[trigger] holidays@.contains(d),
            holidays@.len() == count_holidays(cal, a, b),
        decreases b + 1 - temp_date.serial_of(),
    {
        let ghost n: int = temp_date.serial_of();
        let ghost prev: Seq<Date> = holidays@;
        proof {
            use_type_invariant(&temp_date);
            assert(n <= b);
        }
        if cal.is_holiday(temp_date) {
            holidays.push(temp_date);
        }
        proof {
            if cal.spec_is_holiday(temp_date) {
                assert(holiday_on(cal, n));
            } else {
                assert forall |d: Date| d.valid() && d.serial_of() == n
                    && cal.spec_is_holiday(d) implies false by {
                    lemma_date_serial_injective(d, temp_date);
                }
                assert(!holiday_on(cal, n));
            }
            assert forall |d: Date| (d.valid() && a <= d.serial_of()
                && d.serial_of() < n + 1 && d.serial_of() <= b
                && cal.spec_is_holiday(d)) implies #[trigger] holidays@.contains(d) by {
                if d.serial_of() == n {
                    lemma_date_serial_injective(d, temp_date);
                    assert(holidays@[prev.len() as int] == d);
                } else {
                    assert(prev.contains(d));
                    let i: int = choose |i: int| 0 <= i < prev.len() && prev[i] == d;
                    assert(holidays@[i] == d);
                }
            }
        }
        match temp_date.next_day() {
            Some(nd) => {
                temp_date = nd;
            },
            None => {
                proof {
                    assert(n == b);
                }
                break;
            },
        }
    }
    holidays
}

/// Function to list all business days for a given range of `Date`s, in
/// ascending order; empty when the range is.
pub fn all_business_days_between<C: Calendar>(cal: &C, start_date: Date, end_date: Date) -> (r:
    Vec<Date>)
    ensures
        forall |i: int| 0 <= i < r@.len() ==> ((#[trigger] r@[i]).valid()
            && spec_is_business_day(cal, r@[i])
            && start_date.serial_of() <= r@[i].serial_of() <= end_date.serial_of()),
        forall |i: int, j: int| #![trigger r@[i], r@[j]]
            0 <= i < j < r@.len() ==> r@[i].serial_of() < r@[j].serial_of(),
        forall |d: Date| (d.valid() && start_date.serial_of() <= d.serial_of()
            && d.serial_of() <= end_date.serial_of() && spec_is_business_day(cal, d))
            ==> #[trigger] r@.contains(d),
        r@.len() == count_business(cal, start_date.serial_of(), end_date.serial_of()),
{
    let ghost a: int = start_date.serial_of();
    let ghost b: int = end_date.serial_of();
    proof {
        use_type_invariant(&start_date);
        use_type_invariant(&end_date);
        lemma_serial_bounds(end_date.spec_year(), end_date.spec_month(), end_date.spec_day());
    }
    let mut business_days: Vec<Date> = Vec::new();
    let mut temp_date = start_date;
    while temp_date.on_or_before(&end_date)
        invariant_except_break
            a == start_date.serial_of(),
            b == end_date.serial_of(),
            temp_date.valid(),
            a <= temp_date.serial_of(),
            temp_date.serial_of() == a || temp_date.serial_of() <= b + 1,
            b <= spec_serial(MAX_YEAR as int, 12, 31),
            forall |i: int| 0 <= i < business_days@.len()
                ==> ((#[trigger] business_days@[i]).valid()
                && spec_is_business_day(cal, business_days@[i])
                && a <= business_days@[i].serial_of() <= b
                && business_days@[i].serial_of() < temp_date.serial_of()),
            forall |i: int, j: int| #![trigger business_days@[i], business_days@[j]]
                0 <= i < j < business_days@.len()
                ==> business_days@[i].serial_of() < business_days@[j].serial_of(),
            forall |d: Date| (d.valid() && a <= d.serial_of()
                && d.serial_of() < temp_date.serial_of() && d.serial_of() <= b
                && spec_is_business_day(cal, d)) ==> #[trigger] business_days@.contains(d),
            business_days@.len() == count_business(cal, a, temp_date.serial_of() - 1),
        ensures
            forall |i: int| 0 <= i < business_days@.len()
                ==> ((#[trigger] business_days@[i]).valid()
                && spec_is_business_day(cal, business_days@[i])
                && a <= business_days@[i].serial_of() <= b),
            forall |i: int, j: int| #![trigger business_days@[i], business_days@[j]]
                0 <= i < j < business_days@.len()
                ==> business_days@[i].serial_of() < business_days@[j].serial_of(),
            forall |d: Date| (d.valid() && a <= d.serial_of() && d.serial_of() <= b
                && spec_is_business_day(cal, d)) ==> #[trigger] business_days@.contains(d),
            business_days@.len() == count_business(cal, a, b),
        decreases b + 1 - temp_date.serial_of(),
    {
        let ghost n: int = temp_date.serial_of();
        let ghost prev: Seq<Date> = business_days@;
        proof {
            use_type_invariant(&temp_date);
            assert(n <= b);
        }
        if cal.is_business_day(temp_date) {
            business_days.push(temp_date);
        }
        proof {
            if cal.spec_is_holiday(temp_date) {
                assert(holiday_on(cal, n));
            } else {
                assert forall |d: Date| d.valid() && d.serial_of() == n
                    && cal.spec_is_holiday(d) implies false by {
                    lemma_date_serial_injective(d, temp_date);
                }
                assert(!holiday_on(cal, n));
            }
            assert(spec_is_business_day(cal, temp_date) == business_on(cal, n));
            assert forall |d: Date| (d.valid() && a <= d.serial_of()
                && d.serial_of() < n + 1 && d.serial_of() <= b
                && spec_is_business_day(cal, d)) implies #[trigger] business_days@.contains(d) by {
                if d.serial_of() == n {
                    lemma_date_serial_injective(d, temp_date);
                    assert(business_days@[prev.len() as int] == d);
                } else {
                    assert(prev.contains(d));
                    let i: int = choose |i: int| 0 <= i < prev.len() && prev[i] == d;
                    assert(business_days@[i] == d);
                }
            }
        }
        match temp_date.next_day() {
            Some(nd) => {
                temp_date = nd;
            },
            None => {
                proof {
                    assert(n == b);
                }
                break;
            },
        }
    }
    business_days
}

/// Under any fixed calendar, every date falls in exactly one of three
/// classes: weekend, business day, or holiday on a weekday; and a business
/// day is exactly a weekday that is not a holiday.
pub proof fn lemma_day_classification<C: Calendar>(cal: &C, d: Date)
    ensures
        spec_is_business_day(cal, d) == (!spec_is_weekend(d) && !cal.spec_is_holiday(d)),
        (if spec_is_weekend(d) { 1int } else { 0int })
            + (if spec_is_business_day(cal, d) { 1int } else { 0int })
            + (if !spec_is_weekend(d) && cal.spec_is_holiday(d) { 1int } else { 0int }) == 1,
{
}

/// Where no holiday falls on a weekend, the business days and the holidays
/// of a serial-number range together account exactly for its weekdays: the
/// two counts sum to the number of non-weekend days, and no day is counted
/// twice.
pub proof fn lemma_business_holiday_partition<C: Calendar>(cal: &C, a: int, b: int)
    requires
        forall |n: int| a <= n <= b && #[trigger] holiday_on(cal, n) ==> weekday_on(n),
    ensures
        count_holidays(cal, a, b) + count_business(cal, a, b) == count_weekdays(a, b),
    decreases b + 1 - a,
{
    if a <= b {
        lemma_business_holiday_partition(cal, a, b - 1);
    }
}

/// A calendar with a single fixed-date holiday each year: the given month
/// and day of month. Components that name no real day (a month of 13, or a
/// day of 30 in month 2) simply never match, giving a calendar with no
/// holidays at all.
pub struct SingleHolidayCalendar {
    month: u8,
    day: u8,
}

impl SingleHolidayCalendar {
    /// The month (1-12) of the holiday.
    pub closed spec fn spec_holiday_month(self) -> int {
        self.month as int
    }

    /// The day of month of the holiday.
    pub closed spec fn spec_holiday_day(self) -> int {
        self.day as int
    }

    /// Create a calendar whose only holiday falls on the given month and day
    /// of month, every year.
    pub fn new(month: u8, day: u8) -> (r: SingleHolidayCalendar)
        ensures
            r.spec_holiday_month() == month,
            r.spec_holiday_day() == day,
    {
        SingleHolidayCalendar { month, day }
    }
}

impl Calendar for SingleHolidayCalendar {
    open spec fn spec_is_holiday(&self, date: Date) -> bool {
        date.spec_month() == self.spec_holiday_month() && date.spec_day() == self.spec_holiday_day()
    }

    fn name(&self) -> (n: &'static str) {
        "Single fixed holiday"
    }

    fn is_holiday(&self, date: Date) -> (h: bool) {
        date.month() == self.month && date.day() == self.day
    }
}

} // verus!
