//! The web server: the read side of the indexer, answering paginated
//! queries over posts, replies, users and notifications.
pub mod models;
pub mod database;
pub mod config;
pub mod api;
