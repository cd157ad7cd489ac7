//! Multi-layer decoding engine: decoders, plaintext checkers, a knowledge
//! store of past decodings, and the best-first search that ties them together.

pub mod checkers;
pub mod config;
pub mod decoders;
pub mod search;
pub mod sequence;
pub mod storage;
pub mod text;
pub mod text_set;
pub mod timer;
