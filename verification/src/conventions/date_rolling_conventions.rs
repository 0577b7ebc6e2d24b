//! Date rolling business day conventions.
//!
//! In finance, date rolling occurs when a payment day or date used to
//! calculate accrued interest falls on a holiday, according to a given
//! business calendar. In this case the date is moved forward or backward in
//! time such that it falls on a business day, according with the same
//! business calendar.

use vstd::prelude::*;

use crate::calendar::{spec_is_business_day, Calendar};
use crate::date::{
    lemma_date_serial_injective, lemma_serial_bounds, lemma_serial_monotone, spec_serial, ymd_lt,
    Date, MAX_YEAR, MIN_YEAR,
};

verus! {

/// Date rolling business day conventions.
#[derive(Clone, Copy, Debug, PartialEq, Eq, Structural, Hash)]
pub enum BusinessDayConvention {
    /// Actual: paid on the actual day, even if it is a non-business day.
    Actual,

    /// Following business day: the payment date is rolled to the next
    /// business day.
    Following,

    /// Modified following business day: the payment date is rolled to the
    /// next business day, unless doing so would cause the payment to be in
    /// the next calendar month, in which case the payment date is rolled to
    /// the previous business day. Many institutions have month-end
    /// accounting procedures that necessitate this.
    ModifiedFollowing,

    /// Previous business day: the payment date is rolled to the previous
    /// business day.
    Preceding,

    /// Modified previous business day: the payment date is rolled to the
    /// previous business day, unless doing so would cause the payment to be
    /// in the previous calendar month, in which case the payment date is
    /// rolled to the next business day. Many institutions have month-end
    /// accounting procedures that necessitate this.
    ModifiedPreceding,

    /// Modified Rolling business day: the payment date is rolled to the next
    /// business day. The adjusted date is meant to be used for the next
    /// coupon date, so that adjustments are cumulative across a schedule;
    /// carrying the cumulative shift forward is the caller's responsibility,
    /// and the single-date roll behaves as `Following`.
    ModifiedRolling,
}

/// There is some business day on or after `d` within the representable
/// range.
pub open spec fn exists_business_on_or_after<C: Calendar>(cal: &C, d: Date) -> bool {
    exists |x: Date| x.valid() && x.serial_of() >= d.serial_of()
        && #[trigger] spec_is_business_day(cal, x)
}

/// There is some business day on or before `d` within the representable
/// range.
pub open spec fn exists_business_on_or_before<C: Calendar>(cal: &C, d: Date) -> bool {
    exists |x: Date| x.valid() && x.serial_of() <= d.serial_of()
        && #[trigger] spec_is_business_day(cal, x)
}

/// `r` is the first business day on or after `d`.
pub open spec fn first_business_on_or_after<C: Calendar>(cal: &C, d: Date, r: Date) -> bool {
    &&& r.valid()
    &&& spec_is_business_day(cal, r)
    &&& d.serial_of() <= r.serial_of()
    &&& forall |x: Date| (x.valid() && d.serial_of() <= x.serial_of()
        && x.serial_of() < r.serial_of()) ==> !#[trigger] spec_is_business_day(cal, x)
}

/// `r` is the first business day on or before `d`.
pub open spec fn first_business_on_or_before<C: Calendar>(cal: &C, d: Date, r: Date) -> bool {
    &&& r.valid()
    &&& spec_is_business_day(cal, r)
    &&& r.serial_of() <= d.serial_of()
    &&& forall |x: Date| (x.valid() && r.serial_of() < x.serial_of()
        && x.serial_of() <= d.serial_of()) ==> !#[trigger] spec_is_business_day(cal, x)
}

/// The first business day on or after `date`.
pub fn next_business_day<C: Calendar>(cal: &C, date: Date) -> (r: Date)
    requires
        exists_business_on_or_after(cal, date),
    ensures
        first_business_on_or_after(cal, date, r),
        spec_is_business_day(cal, date) ==> r == date,
{
    proof {
        use_type_invariant(&date);
        lemma_serial_bounds(date.spec_year(), date.spec_month(), date.spec_day());
    }
    let mut cur = date;
    while !cal.is_business_day(cur)
        invariant_except_break
            cur.valid(),
            date.serial_of() <= cur.serial_of(),
            cur.serial_of() <= spec_serial(MAX_YEAR as int, 12, 31),
            exists |x: Date| x.valid() && x.serial_of() >= cur.serial_of()
                && #[trigger] spec_is_business_day(cal, x),
            forall |x: Date| (x.valid() && date.serial_of() <= x.serial_of()
                && x.serial_of() < cur.serial_of()) ==> !#[trigger] spec_is_business_day(cal, x),
        ensures
            cur.valid(),
            spec_is_business_day(cal, cur),
            date.serial_of() <= cur.serial_of(),
            forall |x: Date| (x.valid() && date.serial_of() <= x.serial_of()
                && x.serial_of() < cur.serial_of()) ==> !#[trigger] spec_is_business_day(cal, x),
        decreases spec_serial(MAX_YEAR as int, 12, 31) - cur.serial_of(),
    {
        proof {
            let n: int = cur.serial_of();
            let w = choose |x: Date| x.valid() && x.serial_of() >= cur.serial_of()
                && #[trigger] spec_is_business_day(cal, x);
            if w.serial_of() == cur.serial_of() {
                lemma_date_serial_injective(w, cur);
            }
            lemma_serial_bounds(w.spec_year(), w.spec_month(), w.spec_day());
            assert(cur.serial_of() < spec_serial(MAX_YEAR as int, 12, 31));
            assert forall |x: Date| (x.valid() && date.serial_of() <= x.serial_of()
                && x.serial_of() < n + 1) implies !spec_is_business_day(cal, x) by {
                if x.serial_of() == n {
                    lemma_date_serial_injective(x, cur);
                }
            }
        }
        match cur.next_day() {
            Some(nd) => {
                cur = nd;
            },
            None => {
                break;
            },
        }
    }
    proof {
        if spec_is_business_day(cal, date) {
            if date.serial_of() < cur.serial_of() {
                assert(!spec_is_business_day(cal, date));
            }
            lemma_date_serial_injective(date, cur);
        }
    }
    cur
}

/// The first business day on or before `date`.
pub fn previous_business_day<C: Calendar>(cal: &C, date: Date) -> (r: Date)
    requires
        exists_business_on_or_before(cal, date),
    ensures
        first_business_on_or_before(cal, date, r),
        spec_is_business_day(cal, date) ==> r == date,
{
    proof {
        use_type_invariant(&date);
        lemma_serial_bounds(date.spec_year(), date.spec_month(), date.spec_day());
    }
    let mut cur = date;
    while !cal.is_business_day(cur)
        invariant_except_break
            cur.valid(),
            cur.serial_of() <= date.serial_of(),
            spec_serial(MIN_YEAR as int, 1, 1) <= cur.serial_of(),
            exists |x: Date| x.valid() && x.serial_of() <= cur.serial_of()
                && #[trigger] spec_is_business_day(cal, x),
            forall |x: Date| (x.valid() && cur.serial_of() < x.serial_of()
                && x.serial_of() <= date.serial_of()) ==> !#[trigger] spec_is_business_day(cal, x),
        ensures
            cur.valid(),
            spec_is_business_day(cal, cur),
            cur.serial_of() <= date.serial_of(),
            forall |x: Date| (x.valid() && cur.serial_of() < x.serial_of()
                && x.serial_of() <= date.serial_of()) ==> !#[trigger] spec_is_business_day(cal, x),
        decreases cur.serial_of() - spec_serial(MIN_YEAR as int, 1, 1),
    {
        proof {
            let n: int = cur.serial_of();
            let w = choose |x: Date| x.valid() && x.serial_of() <= cur.serial_of()
                && #[trigger] spec_is_business_day(cal, x);
            if w.serial_of() == cur.serial_of() {
                lemma_date_serial_injective(w, cur);
            }
            lemma_serial_bounds(w.spec_year(), w.spec_month(), w.spec_day());
            assert(spec_serial(MIN_YEAR as int, 1, 1) < cur.serial_of());
            assert forall |x: Date| (x.valid() && x.serial_of() <= date.serial_of()
                && n - 1 < x.serial_of()) implies !spec_is_business_day(cal, x) by {
                if x.serial_of() == n {
                    lemma_date_serial_injective(x, cur);
                }
            }
        }
        match cur.prev_day() {
            Some(pd) => {
                cur = pd;
            },
            None => {
                break;
            },
        }
    }
    proof {
        if spec_is_business_day(cal, date) {
            if cur.serial_of() < date.serial_of() {
                assert(!spec_is_business_day(cal, date));
            }
            lemma_date_serial_injective(date, cur);
        }
    }
    cur
}

/// What `roll` needs of its inputs so that a business day can be found in
/// the direction(s) the convention searches.
pub open spec fn roll_feasible<C: Calendar>(cal: &C, d: Date, convention: BusinessDayConvention)
    -> bool {
    match convention {
        BusinessDayConvention::Actual => true,
        BusinessDayConvention::Following => exists_business_on_or_after(cal, d),
        BusinessDayConvention::ModifiedRolling => exists_business_on_or_after(cal, d),
        BusinessDayConvention::Preceding => exists_business_on_or_before(cal, d),
        BusinessDayConvention::ModifiedFollowing => exists_business_on_or_after(cal, d)
            && (forall |rf: Date| (#[trigger] first_business_on_or_after(cal, d, rf)
                && rf.spec_month() != d.spec_month()) ==> exists_business_on_or_before(cal, d)),
        BusinessDayConvention::ModifiedPreceding => exists_business_on_or_before(cal, d)
            && (forall |rp: Date| (#[trigger] first_business_on_or_before(cal, d, rp)
                && rp.spec_month() != d.spec_month()) ==> exists_business_on_or_after(cal, d)),
    }
}

/// Adjust `date` to a business day of `calendar` under the given rolling
/// convention.
pub fn roll<C: Calendar>(date: Date, convention: BusinessDayConvention, calendar: &C) -> (r: Date)
    requires
        roll_feasible(calendar, date, convention),
    ensures
        r.valid(),
        convention == BusinessDayConvention::Actual ==> r == date,
        (convention == BusinessDayConvention::Following
            || convention == BusinessDayConvention::ModifiedRolling)
            ==> first_business_on_or_after(calendar, date, r),
        convention == BusinessDayConvention::Preceding
            ==> first_business_on_or_before(calendar, date, r),
        convention == BusinessDayConvention::ModifiedFollowing
            ==> exists |rf: Date| #[trigger] first_business_on_or_after(calendar, date, rf)
                && ((rf.spec_month() == date.spec_month() && r == rf)
                    || (rf.spec_month() != date.spec_month()
                        && first_business_on_or_before(calendar, date, r))),
        convention == BusinessDayConvention::ModifiedPreceding
            ==> exists |rp: Date| #[trigger] first_business_on_or_before(calendar, date, rp)
                && ((rp.spec_month() == date.spec_month() && r == rp)
                    || (rp.spec_month() != date.spec_month()
                        && first_business_on_or_after(calendar, date, r))),
        convention != BusinessDayConvention::Actual ==> spec_is_business_day(calendar, r),
        (convention == BusinessDayConvention::Following
            || convention == BusinessDayConvention::ModifiedRolling)
            ==> date.serial_of() <= r.serial_of(),
        convention == BusinessDayConvention::Preceding ==> r.serial_of() <= date.serial_of(),
        spec_is_business_day(calendar, date) ==> r == date,
{
    proof {
        use_type_invariant(&date);
    }
    match convention {
        BusinessDayConvention::Actual => date,
        BusinessDayConvention::Following => next_business_day(calendar, date),
        BusinessDayConvention::ModifiedRolling => next_business_day(calendar, date),
        BusinessDayConvention::Preceding => previous_business_day(calendar, date),
        BusinessDayConvention::ModifiedFollowing => {
            let rf = next_business_day(calendar, date);
            if rf.month() != date.month() {
                previous_business_day(calendar, date)
            } else {
                rf
            }
        },
        BusinessDayConvention::ModifiedPreceding => {
            let rp = previous_business_day(calendar, date);
            if rp.month() != date.month() {
                next_business_day(calendar, date)
            } else {
                rp
            }
        },
    }
}

/// A date whose serial number lies between two dates of one calendar month
/// lies in that month itself.
proof fn lemma_sandwiched_same_month(lo: Date, mid: Date, hi: Date)
    requires
        lo.valid(),
        mid.valid(),
        hi.valid(),
        lo.serial_of() <= mid.serial_of() <= hi.serial_of(),
        lo.spec_year() == hi.spec_year(),
        lo.spec_month() == hi.spec_month(),
    ensures
        mid.spec_year() == lo.spec_year(),
        mid.spec_month() == lo.spec_month(),
{
    if mid.spec_year() != lo.spec_year() || mid.spec_month() != lo.spec_month() {
        if ymd_lt(mid.spec_year(), mid.spec_month(), mid.spec_day(),
            lo.spec_year(), lo.spec_month(), lo.spec_day()) {
            lemma_serial_monotone(mid.spec_year(), mid.spec_month(), mid.spec_day(),
                lo.spec_year(), lo.spec_month(), lo.spec_day());
        } else {
            lemma_serial_monotone(hi.spec_year(), hi.spec_month(), hi.spec_day(),
                mid.spec_year(), mid.spec_month(), mid.spec_day());
        }
    }
}

/// The modified-following roll never leaves the starting date's calendar
/// month, provided the month holds a business day on or before the starting
/// date (witness `w`): either the following business day stays in the month,
/// or the preceding one is used, and that one cannot lie before `w`.
pub proof fn lemma_modified_following_same_month<C: Calendar>(
    cal: &C,
    d: Date,
    r: Date,
    rf: Date,
    w: Date,
)
    requires
        d.valid(),
        first_business_on_or_after(cal, d, rf),
        rf.spec_month() == d.spec_month() ==> r == rf,
        rf.spec_month() != d.spec_month() ==> first_business_on_or_before(cal, d, r),
        w.valid(),
        spec_is_business_day(cal, w),
        w.serial_of() <= d.serial_of(),
        w.spec_month() == d.spec_month(),
        w.spec_year() == d.spec_year(),
    ensures
        r.spec_month() == d.spec_month(),
{
    if rf.spec_month() != d.spec_month() {
        assert(w.serial_of() <= r.serial_of());
        lemma_sandwiched_same_month(w, r, d);
    }
}

} // verus!
