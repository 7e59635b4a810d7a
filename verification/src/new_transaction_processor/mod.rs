//! The newer transaction processor: it indexes broadcasts, posts, replies
//! and votes into per-kind tables, checking post signatures.
pub mod config;
pub mod protocol;
pub mod processing;
