//! One timeline of schema migrations over a shared database and any number of
//! per-account databases.

pub mod global;
pub mod laws;
pub mod local;
pub mod m0002_add_removed_at;
pub mod m0004_add_muted_until;
pub mod m0006_add_self_removed;
pub mod m0007_search_position_index;
pub mod m0009_mute_list;
pub mod m0010_published_kp_kind_metadata;
pub mod m0011_delivery_status_account_scope;
pub mod m0012_bootstrap;
pub mod m0013_media_blob_reference_split;
pub mod m0014_drop_media_files;
pub mod m0014_processed_events_pubkey_fk;
pub mod m0015_move_account_settings;
pub mod m0015_published_events_pubkey_fk;
pub mod m0016_move_drafts;
pub mod m0017_move_published_key_packages;
pub mod m0018_move_published_events;
pub mod m0019_move_processed_events;
pub mod m0022_move_account_follows;
pub mod m0023_drop_shared_account_settings;
pub mod m0028_purge_account_processed_events;
pub mod m0029_move_media_references;
pub mod m0032_move_push_registrations;
pub mod m0034_move_group_push_tokens;
pub mod m0036_move_accounts_groups;
pub mod m0037_drop_shared_accounts_groups;
pub mod m0038_move_aggregated_messages;
pub mod m0039_move_message_delivery_status;
pub mod m0040_drop_shared_message_delivery_status;
pub mod m0042_move_mute_list;
pub mod m0043_drop_shared_mute_list;
pub mod m0044_reparse_content_tokens;
pub mod m0046_account_maintenance_tasks;
pub mod m0047_add_event_created_at_to_mute_list;
pub mod m0047_darkmatter_key_package_metadata;
pub mod m0048_add_is_blocked_to_aggregated_messages;
pub mod m0048_darkmatter_key_package_content_cache;
pub mod m0049_marmot_message_projections;
pub mod m0050_group_push_token_metadata;
pub mod migration;
pub mod move_laws;
pub mod plan_laws;
pub mod registry;
pub mod table;
pub mod table_laws;
pub mod timeline;
pub mod walk;

pub use self::migration::{GlobalMigration, LocalMigration};
pub use self::registry::{all_global_migrations, all_local_migrations};
pub use self::timeline::Migrator;
