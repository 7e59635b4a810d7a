//! The transaction processor: it reads K protocol payloads out of chain
//! transactions, checks their signatures and records what they say.
pub mod protocol;
pub mod database;
pub mod processing;
pub mod config;
pub mod worker;
