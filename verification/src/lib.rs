//! Layered envelope encryption for calendars whose days unlock one by one.
pub mod derivation;
pub mod envelope;
pub mod error;
pub mod model;
pub mod persistence;
pub mod primitives;
pub mod service;
pub mod templates;
pub mod web;
