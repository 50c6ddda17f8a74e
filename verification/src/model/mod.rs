//! The values the key hierarchy works on.
pub mod calendar;
pub mod user;
