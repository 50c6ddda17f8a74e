//! What is persisted, and the operations that change it.
pub mod calendar_repository;
pub mod day_laws;
pub mod day_protection;
pub mod day_record;
pub mod rows;
pub mod session_cache;
pub mod session_laws;
pub mod session_store;
pub mod user_repository;
