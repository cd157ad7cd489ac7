//! The knowledge store: what was decoded before, and what a human refused.

pub mod database;
pub mod rows;
pub mod schema;
