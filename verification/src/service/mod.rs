//! The rules that stand between a request and the store.
pub mod authentication;
pub mod calendar_service;
