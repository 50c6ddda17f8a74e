//! The values that forms hand to the library.
pub mod authentication_handlers;
pub mod calendar_handlers;
