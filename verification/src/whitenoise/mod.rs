pub mod database;
pub mod discovery_sync_worker;
pub mod drafts;
pub mod error;
pub mod error_laws;
pub mod event_processor;
pub mod nostr;
pub mod text;
pub mod utils;
