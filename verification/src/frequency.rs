//! Frequency of payments.

use vstd::prelude::*;

verus! {

/// Interest/coupon frequency per year.
/// This is important in finance, as it determines the number of times
/// a cash flow is paid in a year, and thus affects the present value
/// of the cash flows.
#[derive(Clone, Copy, Debug, PartialEq, Eq, Structural, Hash)]
pub enum Frequency {
    /// Daily.
    Daily,

    /// Weekly.
    Weekly,

    /// Bi-weekly.
    BiWeekly,

    /// Semi-monthly.
    SemiMonthly,

    /// Monthly.
    Monthly,

    /// Semi-quarterly.
    SemiQuarterly,

    /// Quarterly.
    Quarterly,

    /// Tri-annually.
    TriAnnually,

    /// Semi-annually.
    SemiAnnually,

    /// Annually.
    Annually,
}

} // verus!
