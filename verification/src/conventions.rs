//! The two convention families of the library: date-rolling (business-day
//! adjustment) conventions and day-count conventions.

/// Date rolling conventions.
pub mod date_rolling_conventions;

/// Day counting conventions.
pub mod day_counting_conventions;
