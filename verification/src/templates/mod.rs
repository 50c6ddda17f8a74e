//! The data each page is rendered from.
pub mod authentication_templates;
pub mod calendar_templates;
pub mod templates;
