//! The search: best-first exploration of the chains of decoders.

pub mod engine;
pub mod node;
pub mod solution;
