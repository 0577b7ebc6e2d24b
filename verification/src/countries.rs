//! This module defines calendars and holidays for different countries.

/// This module defines Argentina holidays and calendars.
pub mod argentina;

/// This module defines Australia holidays and calendars.
pub mod australia;

/// This module defines Austria holidays and calendars.
pub mod austria;

/// This module defines Botswana holidays and calendars.
pub mod botswana;

/// This module defines Canada holidays and calendars.
pub mod canada;

/// This module defines Denmark holidays and calendars.
pub mod denmark;

/// This module defines France holidays and calendars.
pub mod france;

/// This module defines United States holidays and calendars.
pub mod united_states;
