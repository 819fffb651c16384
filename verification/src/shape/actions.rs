//! Shape validators for actions, by family.

pub mod connectors;
pub mod control;
pub mod data;
pub mod integration;
pub mod variables;
