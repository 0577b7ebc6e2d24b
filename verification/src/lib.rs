//! A library of date-level primitives for financial cash-flow schedules:
//! business-day calendars for a set of jurisdictions, date-rolling
//! (business-day adjustment) conventions, and a day-count convention engine
//! that computes the fraction of a year between two dates as an exact
//! rational number.

/// The calendar date type and its arithmetic.
pub mod date;

/// Utility functions for working with dates: unpacking, weekends, Easter
/// Monday, and weekday occurrences within a month.
pub mod functions;

/// The core `Calendar` trait.
pub mod calendar;

/// Date rolling conventions and day counting conventions.
pub mod conventions;

/// Calendars implemented for specific countries.
pub mod countries;

/// Frequency of payments.
pub mod frequency;

pub use calendar::Calendar;
pub use calendar::SingleHolidayCalendar;
pub use conventions::date_rolling_conventions::roll;
pub use conventions::date_rolling_conventions::BusinessDayConvention;
pub use conventions::day_counting_conventions::DayCountConvention;
pub use conventions::day_counting_conventions::YearFraction;
pub use date::CalendarError;
pub use date::Date;
pub use date::Weekday;
pub use frequency::Frequency;
