pub mod account_list;
pub mod group_message_laws;
pub mod handle_contact_list;
pub mod handle_giftwrap;
pub mod handle_metadata;
pub mod handle_mls_message;
pub mod handle_mute_list;
pub mod handle_relay_list;
pub mod message_cache;
pub mod message_cache_effects;
pub mod message_cache_laws;
