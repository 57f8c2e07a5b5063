//! Names a file after a calendar date.
//!
//! A [`config::Config`] fixes the order of day, month and year, the
//! character between them, the width of the year and the extension. The
//! functions of [`filename`] turn a configuration and a date into the file's
//! name; every one of them is proved against the text that its contract
//! states.

pub mod config;
pub mod date;
pub mod filename;
pub mod numeral;
pub mod order;
