//! Shape validators for triggers, by family.

pub mod batch;
pub mod common;
pub mod date;
pub mod http;
pub mod recurrence;
pub mod request;
pub mod schedule;
