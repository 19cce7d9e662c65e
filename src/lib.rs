//! Date and time settings: the weekday codec, the date formatter and the
//! settings page's state and reducer.
pub mod clock;
pub mod format;
pub mod weekday;
pub mod page;
