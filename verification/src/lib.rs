//! Verified core of the K social-protocol indexer services.
pub mod text;
pub mod codec;
pub mod settings;
pub mod hashtags;
pub mod transaction_processor;
pub mod webserver;
pub mod new_transaction_processor;
pub mod indexer_legacy;
pub mod content_remover;
pub mod database_cleaner;
