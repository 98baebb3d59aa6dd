use whitenoise::whitenoise::database::rust_migrations::m0011_delivery_status_account_scope as m0011;
use whitenoise::whitenoise::database::rust_migrations::m0013_media_blob_reference_split as m0013;
use whitenoise::whitenoise::database::rust_migrations::m0014_processed_events_pubkey_fk as m0014;
use whitenoise::whitenoise::database::rust_migrations::m0015_move_account_settings as settings;
use whitenoise::whitenoise::database::rust_migrations::m0015_published_events_pubkey_fk as m0015;
use whitenoise::whitenoise::database::rust_migrations::m0016_move_drafts as m0016;
use whitenoise::whitenoise::database::rust_migrations::m0017_move_published_key_packages as m0017;
use whitenoise::whitenoise::database::rust_migrations::m0018_move_published_events as m0018;
use whitenoise::whitenoise::database::rust_migrations::m0019_move_processed_events as m0019;
use whitenoise::whitenoise::database::rust_migrations::m0022_move_account_follows as m0022;
use whitenoise::whitenoise::database::rust_migrations::m0028_purge_account_processed_events as m0028;
use whitenoise::whitenoise::database::rust_migrations::m0029_move_media_references as m0029;
use whitenoise::whitenoise::database::rust_migrations::m0032_move_push_registrations as m0032;
use whitenoise::whitenoise::database::rust_migrations::m0034_move_group_push_tokens as m0034;
use whitenoise::whitenoise::database::rust_migrations::m0036_move_accounts_groups as m0036;
use whitenoise::whitenoise::database::rust_migrations::m0038_move_aggregated_messages as m0038;
use whitenoise::whitenoise::database::rust_migrations::m0039_move_message_delivery_status as m0039;
use whitenoise::whitenoise::database::rust_migrations::m0042_move_mute_list as m0042;
use whitenoise::whitenoise::database::rust_migrations::m0044_reparse_content_tokens as m0044;
use whitenoise::whitenoise::database::rust_migrations::m0047_add_event_created_at_to_mute_list as m0047;
use whitenoise::whitenoise::database::rust_migrations::m0048_add_is_blocked_to_aggregated_messages as m0048;
use whitenoise::whitenoise::database::rust_migrations::m0050_group_push_token_metadata as m0050;
use whitenoise::whitenoise::database::rust_migrations::table::{
    check_hex_64, check_not_blank, check_starts_hex_64, NumberedKey, Owned,
};

fn key(byte: &str) -> String {
    byte.repeat(32)
}

fn owned<R>(account: &str, row: R) -> Owned<R> {
    Owned { account_pubkey: Some(account.to_string()), row }
}

// -- Media ---------------------------------------------------------------

fn media_file(account: &str, hash: &str, path: &str, url: Option<&str>) -> m0013::MediaFile {
    m0013::MediaFile {
        mls_group_id: vec![1u8; 8],
        account_pubkey: account.to_string(),
        file_path: path.to_string(),
        original_file_hash: None,
        encrypted_file_hash: hash.to_string(),
        mime_type: "image/png".to_string(),
        media_type: "chat_media".to_string(),
        blossom_url: url.map(|u| u.to_string()),
        nostr_key: None,
        file_metadata: None,
        nonce: None,
        scheme_version: None,
        created_at: 1000,
    }
}

#[test]
fn backfill_deduplicates_blobs_and_preserves_references() {
    let acct_a = key("aa");
    let acct_b = key("bb");
    let files = vec![
        media_file(&acct_a, "aabbccdd", "/path/a.enc", Some("https://blob.a")),
        media_file(&acct_b, "aabbccdd", "/path/b.enc", None),
        media_file(&acct_a, "11223344", "/path/c.enc", Some("https://blob.c")),
    ];
    let (blobs, references) = m0013::Migration.run_global(files);
    assert_eq!(blobs.len(), 2, "should have 2 distinct blobs");
    assert_eq!(references.len(), 3, "should have 3 references");
    let shared = blobs.iter().find(|b| b.encrypted_file_hash == "aabbccdd").unwrap();
    assert_eq!(shared.file_path, "/path/a.enc", "first writer's path wins");
    assert_eq!(shared.blossom_url.as_deref(), Some("https://blob.a"));
    let mut accounts: Vec<&str> = references
        .iter()
        .filter(|r| r.encrypted_file_hash == "aabbccdd")
        .map(|r| r.account_pubkey.as_str())
        .collect();
    accounts.sort();
    assert_eq!(accounts, vec![acct_a.as_str(), acct_b.as_str()]);
}

#[test]
fn blob_takes_a_url_from_whichever_file_has_one() {
    let files = vec![
        media_file(&key("aa"), "aabbccdd", "/path/a.enc", None),
        media_file(&key("bb"), "aabbccdd", "/path/b.enc", Some("https://blob.b")),
    ];
    let (blobs, _) = m0013::Migration.run_global(files);
    assert_eq!(blobs.len(), 1);
    assert_eq!(blobs[0].file_path, "/path/a.enc");
    assert_eq!(blobs[0].blossom_url.as_deref(), Some("https://blob.b"));
}

fn media_reference(hash: &str, media_type: &str, original: Option<&str>, at: i64) -> m0029::MediaReferenceRow {
    m0029::MediaReferenceRow {
        mls_group_id: vec![0xde, 0xad, 0xbe, 0xef],
        encrypted_file_hash: hash.to_string(),
        media_type: media_type.to_string(),
        nostr_key: None,
        file_metadata: None,
        original_file_hash: original.map(|o| o.to_string()),
        nonce: None,
        scheme_version: None,
        created_at: at,
    }
}

#[test]
fn m0029_move_media_references_migration_copies_account_rows_to_local() {
    let pubkey = key("ab");
    let shared = vec![
        owned(&pubkey, media_reference("hash1", "chat_media", Some("orig1"), 1000)),
        owned("other_account", media_reference("hash2", "group_image", None, 2000)),
    ];
    let mut local = vec![];
    m0029::Migration.run_local(Some(shared), &pubkey, &mut local);
    assert_eq!(local.len(), 1);
    assert_eq!(local[0].encrypted_file_hash, "hash1");
}

#[test]
fn m0029_move_media_references_migration_creates_table_when_no_shared_rows() {
    let mut local = vec![];
    m0029::Migration.run_local(Some(vec![]), &key("cd"), &mut local);
    assert!(local.is_empty());
}

#[test]
fn m0029_move_media_references_migration_tolerates_missing_shared_table() {
    let mut local = vec![];
    m0029::Migration.run_local(None, &key("ef"), &mut local);
    assert!(local.is_empty());
}

// -- Keys in place of numbers --------------------------------------------

#[test]
fn migration_preserves_global_and_account_rows() {
    let pubkey = key("ab");
    let row = |id: i64, event: &str, account_id: Option<i64>, kind: i64| m0014::NumberedProcessedEvent {
        id,
        event_id: key(event),
        account_id,
        created_at: "2026-01-01 00:00:00".to_string(),
        event_created_at: None,
        event_kind: Some(kind),
        author: None,
    };
    let accounts = vec![NumberedKey { id: 1, pubkey: pubkey.clone() }];
    let keyed = m0014::Migration
        .run_global(vec![row(1, "cd", Some(1), 1), row(2, "ef", None, 0)], &accounts);
    assert_eq!(keyed.len(), 2, "both rows should be preserved");
    assert_eq!(keyed[0].account_pubkey.as_deref(), Some(pubkey.as_str()));
    assert!(keyed[1].account_pubkey.is_none(), "global row's account_pubkey should be NULL");
    assert_eq!(keyed[0].event_id, key("cd"));
}

#[test]
fn migration_translates_account_id_to_pubkey() {
    let pubkey = key("ab");
    let row = |id: i64, event: &str, account_id: i64| m0015::NumberedPublishedEvent {
        id,
        event_id: key(event),
        account_id,
        created_at: "2026-01-01 00:00:00".to_string(),
    };
    let accounts = vec![NumberedKey { id: 1, pubkey: pubkey.clone() }];
    let (kept, dropped) = m0015::Migration.run_global(vec![row(1, "cd", 1)], &accounts);
    assert_eq!(kept.len(), 1);
    assert_eq!(kept[0].account_pubkey, pubkey);
    assert_eq!(dropped, 0);
    let (kept, dropped) =
        m0015::Migration.run_global(vec![row(1, "cd", 1), row(2, "ef", 9)], &accounts);
    assert_eq!(kept.len(), 1);
    assert_eq!(dropped, 1, "a row of no account is dropped");
}

#[test]
fn delivery_status_goes_to_the_author() {
    let rows = vec![
        m0011::DeliveryStatusRow {
            message_id: "m1".to_string(),
            mls_group_id: vec![1],
            status: "\"Sent\"".to_string(),
        },
        m0011::DeliveryStatusRow {
            message_id: "m2".to_string(),
            mls_group_id: vec![1],
            status: "\"Sent\"".to_string(),
        },
    ];
    let messages = vec![m0011::AuthoredMessage {
        message_id: "m1".to_string(),
        mls_group_id: vec![1],
        author: key("ab"),
    }];
    let scoped = m0011::Migration.run_global(rows, &messages);
    assert_eq!(scoped.len(), 1);
    assert_eq!(scoped[0].message_id, "m1");
    assert_eq!(scoped[0].account_pubkey, key("ab"));
}

// -- Rows on their way into an account's database ------------------------

#[test]
fn migration_copies_existing_row_to_local() {
    let pubkey = key("ab");
    let row = settings::AccountSettingsRow { notifications_enabled: 0, created_at: 1, updated_at: 1 };
    let mut local = vec![];
    settings::Migration.run_local(Some(vec![owned(&pubkey, row)]), &pubkey, &mut local);
    assert_eq!(local.len(), 1, "row must be the only one");
    assert_eq!(local[0].notifications_enabled, 0, "notifications_enabled should round-trip");
}

#[test]
fn migration_creates_table_when_no_existing_row() {
    let mut local: Vec<settings::AccountSettingsRow> = vec![];
    settings::Migration.run_local(Some(vec![]), &key("cd"), &mut local);
    assert_eq!(local.len(), 0);
}

#[test]
fn m0015_move_account_settings_migration_tolerates_missing_shared_table() {
    let mut local: Vec<settings::AccountSettingsRow> = vec![];
    settings::Migration.run_local(None, &key("ef"), &mut local);
    assert!(local.is_empty());
}

fn draft(group: &[u8], content: &str) -> m0016::DraftRow {
    m0016::DraftRow {
        mls_group_id: group.to_vec(),
        content: content.to_string(),
        reply_to_id: None,
        media_attachments: "[]".to_string(),
        created_at: 1,
        updated_at: 1,
    }
}

#[test]
fn migration_copies_account_drafts_only() {
    let pubkey = key("ab");
    let other = key("cd");
    let shared = vec![
        owned(&pubkey, draft(b"group_one_______", "mine")),
        owned(&pubkey, draft(b"group_two_______", "also mine")),
        owned(&other, draft(b"group_one_______", "not mine")),
    ];
    let mut local = vec![];
    m0016::Migration.run_local(Some(shared), &pubkey, &mut local);
    let mut contents: Vec<&str> = local.iter().map(|d| d.content.as_str()).collect();
    contents.sort();
    assert_eq!(contents, vec!["also mine", "mine"]);
}

#[test]
fn m0016_move_drafts_migration_tolerates_missing_shared_table() {
    let mut local = vec![];
    m0016::Migration.run_local(None, &key("ef"), &mut local);
    assert!(local.is_empty());
}

#[test]
fn copying_again_changes_nothing() {
    let pubkey = key("ab");
    let mut local = vec![];
    for content in ["mine", "a second copy"] {
        let shared = vec![owned(&pubkey, draft(b"group_one_______", content))];
        m0016::Migration.run_local(Some(shared), &pubkey, &mut local);
    }
    assert_eq!(local.len(), 1);
    assert_eq!(local[0].content, "mine");
}

fn key_package(event: &str) -> m0017::PublishedKeyPackageRow {
    m0017::PublishedKeyPackageRow {
        key_package_hash_ref: b"hash".to_vec(),
        event_id: event.to_string(),
        kind: 443,
        d_tag: None,
        consumed_at: None,
        key_material_deleted: 0,
        created_at: 0,
    }
}

#[test]
fn migration_copies_account_packages_only() {
    let pubkey = key("ab");
    let shared = vec![
        owned(&pubkey, key_package("evt-mine-1")),
        owned(&pubkey, key_package("evt-mine-2")),
        owned(&key("cd"), key_package("evt-other")),
    ];
    let mut local = vec![];
    m0017::Migration.run_local(Some(shared), &pubkey, &mut local);
    let events: Vec<&str> = local.iter().map(|p| p.event_id.as_str()).collect();
    assert_eq!(events, vec!["evt-mine-1", "evt-mine-2"]);
}

#[test]
fn m0017_move_published_key_packages_migration_tolerates_missing_shared_table() {
    let mut local = vec![];
    m0017::Migration.run_local(None, &key("ef"), &mut local);
    assert!(local.is_empty());
}

fn published(event: &str) -> m0018::PublishedEventRow {
    m0018::PublishedEventRow { event_id: key(event), created_at: "2026-01-01".to_string() }
}

#[test]
fn migration_copies_account_rows_only() {
    let pubkey = key("ab");
    let shared = vec![
        owned(&pubkey, published("11")),
        owned(&pubkey, published("22")),
        owned(&key("cd"), published("33")),
    ];
    let mut local = vec![];
    m0018::Migration.run_local(Some(shared), &pubkey, &mut local);
    let events: Vec<&str> = local.iter().map(|p| p.event_id.as_str()).collect();
    assert_eq!(events, vec![key("11").as_str(), key("22").as_str()]);
}

#[test]
fn m0018_move_published_events_migration_tolerates_missing_shared_table() {
    let mut local = vec![];
    m0018::Migration.run_local(None, &key("ef"), &mut local);
    assert!(local.is_empty());
}

fn processed(event: &str, kind: i64) -> m0019::ProcessedEventRow {
    m0019::ProcessedEventRow {
        event_id: key(event),
        created_at: "2026-01-01".to_string(),
        event_created_at: None,
        event_kind: Some(kind),
        author: None,
    }
}

#[test]
fn migration_copies_only_this_accounts_rows() {
    let pubkey = key("ab");
    let shared = vec![
        owned(&pubkey, processed("11", 3)),
        owned(&key("cd"), processed("22", 3)),
        Owned { account_pubkey: None, row: processed("33", 0) },
    ];
    let mut local = vec![];
    m0019::Migration.run_local(Some(shared), &pubkey, &mut local);
    assert_eq!(local.len(), 1);
    assert_eq!(local[0].event_id, key("11"));
}

#[test]
fn m0019_move_processed_events_migration_tolerates_missing_shared_table() {
    let mut local = vec![];
    m0019::Migration.run_local(None, &key("ef"), &mut local);
    assert!(local.is_empty());
}

#[test]
fn migration_copies_followed_pubkeys() {
    let me = key("ab");
    let accounts = vec![
        NumberedKey { id: 1, pubkey: me.clone() },
        NumberedKey { id: 2, pubkey: key("cd") },
    ];
    let users = vec![
        NumberedKey { id: 1, pubkey: key("11") },
        NumberedKey { id: 2, pubkey: key("22") },
        NumberedKey { id: 3, pubkey: key("33") },
    ];
    let follow = |account_id: i64, user_id: i64, created_at: i64| m0022::NumberedFollow {
        account_id,
        user_id,
        created_at,
        updated_at: created_at + 100,
    };
    let shared = vec![follow(1, 1, 100), follow(1, 2, 110), follow(2, 3, 120)];
    let mut local = vec![];
    m0022::Migration.run_local(Some(shared), &users, &accounts, &me, &mut local);
    assert_eq!(local.len(), 2);
    assert_eq!(local[0].pubkey, key("11"));
    assert_eq!(local[0].created_at, 100);
    assert_eq!(local[0].updated_at, 200);
    assert_eq!(local[1].pubkey, key("22"));
}

#[test]
fn m0022_move_account_follows_migration_tolerates_missing_shared_table() {
    let mut local = vec![];
    m0022::Migration.run_local(None, &vec![], &vec![], &key("ef"), &mut local);
    assert!(local.is_empty());
}

#[test]
fn purges_account_rows_keeps_global_rows() {
    let rows = vec![
        owned(&key("ab"), key("11")),
        Owned { account_pubkey: None, row: key("22") },
    ];
    let kept = m0028::Migration.run_global(rows);
    assert_eq!(kept.len(), 1, "global row should be retained");
    assert!(kept[0].account_pubkey.is_none());
    assert_eq!(kept[0].row, key("22"));
}

fn registration(platform: &str, token: &str, server: &str, hint: Option<&str>) -> m0032::PushRegistrationRow {
    m0032::PushRegistrationRow {
        platform: platform.to_string(),
        raw_token: token.to_string(),
        server_pubkey: server.to_string(),
        relay_hint: hint.map(|h| h.to_string()),
        created_at: 1000,
        updated_at: 2000,
        last_shared_at: Some(3000),
    }
}

#[test]
fn m0032_move_push_registrations_migration_copies_account_rows_to_local() {
    let pubkey = key("ab");
    let shared = vec![
        owned(
            &pubkey,
            registration("apns", "token-abc", "serverpub1", Some("wss://relay.example.com")),
        ),
        owned("other_account", registration("fcm", "token-xyz", "serverpub2", None)),
    ];
    let mut local = vec![];
    m0032::Migration.run_local(Some(shared), &pubkey, &mut local);
    assert_eq!(local.len(), 1);
    assert_eq!(local[0].platform, "apns");
    assert_eq!(local[0].raw_token, "token-abc");
    assert_eq!(local[0].server_pubkey, "serverpub1");
}

#[test]
fn m0032_move_push_registrations_migration_creates_table_when_no_shared_rows() {
    let mut local = vec![];
    m0032::Migration.run_local(Some(vec![]), &key("cd"), &mut local);
    assert!(local.is_empty());
}

#[test]
fn m0032_move_push_registrations_migration_tolerates_missing_shared_table() {
    let mut local = vec![];
    m0032::Migration.run_local(None, &key("ef"), &mut local);
    assert!(local.is_empty());
}

fn push_token(group: &[u8], member: &str, leaf: i64, token: &str) -> m0034::GroupPushTokenRow {
    m0034::GroupPushTokenRow {
        mls_group_id: group.to_vec(),
        member_pubkey: member.to_string(),
        leaf_index: leaf,
        server_pubkey: "serverpub1".to_string(),
        relay_hint: None,
        encrypted_token: token.to_string(),
        created_at: 1000,
        updated_at: 2000,
    }
}

#[test]
fn m0034_move_group_push_tokens_migration_copies_account_rows_to_local() {
    let pubkey = key("ab");
    let shared = vec![
        owned(&pubkey, push_token(&[1, 2, 3, 4], "member1", 3, "cipher-abc")),
        owned(&pubkey, push_token(&[1, 2, 3, 4], "member2", 7, "cipher-def")),
        owned("other_account", push_token(&[5, 6, 7, 8], "member3", 1, "cipher-ghi")),
    ];
    let mut local = vec![];
    m0034::Migration.run_local(Some(shared), &pubkey, &mut local);
    assert_eq!(local.len(), 2);
    let third = local.iter().find(|t| t.leaf_index == 3).unwrap();
    assert_eq!(third.encrypted_token, "cipher-abc");
}

#[test]
fn m0034_move_group_push_tokens_migration_creates_table_when_no_shared_rows() {
    let mut local = vec![];
    m0034::Migration.run_local(Some(vec![]), &key("cd"), &mut local);
    assert!(local.is_empty());
}

#[test]
fn m0034_move_group_push_tokens_migration_tolerates_missing_shared_table() {
    let mut local = vec![];
    m0034::Migration.run_local(None, &key("ef"), &mut local);
    assert!(local.is_empty());
}

fn account_group(group: &[u8], confirmation: Option<i64>, pin: Option<i64>) -> m0036::AccountGroupRow {
    m0036::AccountGroupRow {
        mls_group_id: group.to_vec(),
        user_confirmation: confirmation,
        welcomer_pubkey: None,
        last_read_message_id: None,
        pin_order: pin,
        dm_peer_pubkey: None,
        archived_at: None,
        removed_at: None,
        self_removed: 0,
        muted_until: None,
        chat_cleared_at: None,
        created_at: 1000,
        updated_at: 2000,
    }
}

#[test]
fn m0036_move_accounts_groups_migration_copies_account_rows_to_local() {
    let pubkey = key("ab");
    let shared = vec![
        owned(&pubkey, account_group(&[1, 2, 3, 4], Some(1), None)),
        owned(&pubkey, account_group(&[5, 6, 7, 8], Some(0), Some(42))),
        owned("other_account", account_group(&[9, 0x10, 0x11, 0x12], None, None)),
    ];
    let mut local = vec![];
    m0036::Migration.run_local(Some(shared), &pubkey, &mut local);
    assert_eq!(local.len(), 2);
    assert_eq!(local[0].user_confirmation, Some(1));
    assert_eq!(local[1].pin_order, Some(42));
}

#[test]
fn m0036_move_accounts_groups_migration_creates_table_when_no_shared_rows() {
    let mut local = vec![];
    m0036::Migration.run_local(Some(vec![]), &key("cd"), &mut local);
    assert!(local.is_empty());
}

#[test]
fn m0036_move_accounts_groups_migration_tolerates_missing_shared_table() {
    let mut local = vec![];
    m0036::Migration.run_local(None, &key("ef"), &mut local);
    assert!(local.is_empty());
}

fn message(id: &str, group: &[u8], at: i64) -> m0038::AggregatedMessageRow {
    m0038::AggregatedMessageRow {
        message_id: id.repeat(64),
        mls_group_id: group.to_vec(),
        author: "d".repeat(64),
        created_at: at,
        kind: 9,
        content: String::new(),
        tags: "[]".to_string(),
        reply_to_id: None,
        deletion_event_id: None,
        content_tokens: "[]".to_string(),
        reactions: "{}".to_string(),
        media_attachments: "[]".to_string(),
        content_normalized: String::new(),
    }
}

fn messages() -> Vec<m0038::AggregatedMessageRow> {
    vec![
        message("a", &[1, 2, 3, 4], 1000),
        message("b", &[1, 2, 3, 4], 2000),
        message("c", &[0x99, 0x88], 3000),
    ]
}

#[test]
fn migration_copies_only_account_groups() {
    let mut local = vec![];
    let copied = m0038::Migration.run_local(Some(messages()), &vec![vec![1, 2, 3, 4]], &mut local);
    assert_eq!(copied, 2);
    assert_eq!(local.len(), 2, "only the two messages in the joined group are copied");
    assert!(local.iter().all(|m| m.mls_group_id != vec![0x99, 0x88]));
}

#[test]
fn migration_creates_table_with_no_groups() {
    let mut local = vec![];
    assert_eq!(m0038::Migration.run_local(Some(messages()), &vec![], &mut local), 0);
    assert_eq!(local.len(), 0);
}

#[test]
fn m0038_move_aggregated_messages_migration_tolerates_missing_shared_table() {
    let mut local = vec![];
    assert_eq!(m0038::Migration.run_local(None, &vec![vec![1]], &mut local), 0);
    assert!(local.is_empty());
}

fn status(id: &str, account: &str) -> m0039::DeliveryStatusRow {
    m0039::DeliveryStatusRow {
        message_id: id.repeat(64),
        mls_group_id: vec![1, 2, 3, 4],
        account_pubkey: account.to_string(),
        status: "\"Sent\"".to_string(),
    }
}

#[test]
fn migration_copies_only_this_account_with_parent_present() {
    let pubkey = key("ab");
    let parents = vec![m0039::MessageKey {
        message_id: "1".repeat(64),
        mls_group_id: vec![1, 2, 3, 4],
    }];
    let shared = vec![status("1", &pubkey), status("2", &pubkey), status("1", &key("ff"))];
    let mut local = vec![];
    let inserted = m0039::Migration.run_local(Some(shared), &pubkey, &parents, &mut local);
    assert_eq!(inserted, 1);
    assert_eq!(local.len(), 1, "only this account's status with parent present is copied");
    assert_eq!(local[0].account_pubkey, pubkey);
}

#[test]
fn m0039_move_message_delivery_status_migration_tolerates_missing_shared_table() {
    let mut local = vec![];
    assert_eq!(m0039::Migration.run_local(None, &key("ef"), &vec![], &mut local), 0);
    assert!(local.is_empty());
}

// -- Mute lists ----------------------------------------------------------

fn mute(target: &str, is_private: i64, at: i64) -> m0042::MuteListRow {
    m0042::MuteListRow { muted_pubkey: target.to_string(), is_private, created_at: at }
}

#[test]
fn migration_copies_only_owning_account_entries() {
    let pubkey = key("ab");
    let shared = vec![
        owned(&pubkey, mute(&key("11"), 1, 1000)),
        owned(&pubkey, mute(&key("22"), 0, 2000)),
        owned(&key("cd"), mute(&key("33"), 1, 3000)),
    ];
    let mut local = vec![];
    let counts = m0042::Migration.run_local(Some(shared), &pubkey, &mut local);
    assert_eq!(counts, (2, 0));
    assert_eq!(local.len(), 2, "only the owning account's entries are copied");
    assert!(local.iter().all(|m| m.muted_pubkey != key("33")));
    assert_eq!(local[0].is_private, 1, "is_private value preserved");
    assert_eq!(local[1].created_at, 2000, "created_at value preserved");
}

#[test]
fn migration_creates_empty_table_when_no_entries() {
    let mut local = vec![];
    assert_eq!(m0042::Migration.run_local(Some(vec![]), &key("ef"), &mut local), (0, 0));
    assert_eq!(local.len(), 0);
}

#[test]
fn m0042_move_mute_list_migration_tolerates_missing_shared_table() {
    let mut local = vec![];
    assert_eq!(m0042::Migration.run_local(None, &key("12"), &mut local), (0, 0));
    assert!(local.is_empty());
}

#[test]
fn migration_silently_skips_invalid_pubkey_rows() {
    let pubkey = key("ab");
    let shared = vec![
        owned(&pubkey, mute("not-hex-pubkey", 1, 1000)),
        owned(&pubkey, mute(&key("11"), 0, 2000)),
    ];
    let mut local = vec![];
    let counts = m0042::Migration.run_local(Some(shared), &pubkey, &mut local);
    assert_eq!(counts, (1, 1));
    assert_eq!(local.len(), 1, "only the well-formed row survives the CHECK");
    assert_eq!(local[0].muted_pubkey, key("11"));
}

fn untimed(id: i64, target: &str, is_private: i64, at: i64) -> m0047::UntimedMute {
    m0047::UntimedMute { id, muted_pubkey: target.to_string(), is_private, created_at: at }
}

#[test]
fn backfills_event_created_at_from_per_device_created_at() {
    let rows = vec![untimed(1, &key("11"), 1, 1000), untimed(2, &key("22"), 0, 2000)];
    let timed = m0047::Migration.run_local(false, rows).unwrap();
    assert_eq!((timed[0].created_at, timed[0].event_created_at), (1000, 1000));
    assert_eq!((timed[1].created_at, timed[1].event_created_at), (2000, 2000));
}

#[test]
fn empty_mute_list_survives_migration() {
    assert_eq!(m0047::Migration.run_local(false, vec![]).unwrap().len(), 0);
}

#[test]
fn m0047_add_event_created_at_to_mute_list_is_noop_when_column_already_present() {
    let rows = vec![untimed(1, &key("11"), 1, 1000)];
    assert!(m0047::Migration.run_local(true, rows).is_none());
}

fn timed(target: &str, at: i64) -> m0047::TimedMute {
    m0047::TimedMute {
        id: 1,
        muted_pubkey: target.to_string(),
        is_private: 1,
        created_at: at,
        event_created_at: at,
    }
}

fn blockable(author: &str, at: i64) -> m0048::BlockableMessage {
    m0048::BlockableMessage { author: author.to_string(), created_at: at, is_blocked: false }
}

#[test]
fn backfill_leaves_unmuted_authors_unblocked() {
    let mut messages = vec![blockable(&key("22"), 9000)];
    m0048::Migration.run_local(false, &vec![timed(&key("11"), 5000)], &mut messages);
    assert!(!messages[0].is_blocked);
}

#[test]
fn backfill_stamps_post_block_messages_from_muted_authors() {
    let mut messages = vec![blockable(&key("11"), 5000), blockable(&key("11"), 9000)];
    m0048::Migration.run_local(false, &vec![timed(&key("11"), 5000)], &mut messages);
    assert!(messages[0].is_blocked, "message at exactly event_created_at must be stamped");
    assert!(messages[1].is_blocked, "message after the block must be stamped");
}

#[test]
fn backfill_leaves_pre_block_messages_visible() {
    let mut messages = vec![blockable(&key("11"), 4999)];
    m0048::Migration.run_local(false, &vec![timed(&key("11"), 5000)], &mut messages);
    assert!(!messages[0].is_blocked);
}

#[test]
fn m0048_add_is_blocked_to_aggregated_messages_is_noop_when_column_already_present() {
    let mut messages = vec![blockable(&key("11"), 9000)];
    m0048::Migration.run_local(true, &vec![timed(&key("11"), 5000)], &mut messages);
    assert!(!messages[0].is_blocked);
}

// -- Tokens and columns --------------------------------------------------

fn tokenized(id: i64, kind: i64, content: &str, tokens: &str) -> m0044::TokenizedMessage {
    m0044::TokenizedMessage {
        id,
        kind,
        content: content.to_string(),
        content_tokens: tokens.to_string(),
    }
}

#[test]
fn migration_reparses_kind_9_content_tokens() {
    let stale = r#"{"blocks":[{"Paragraph":{"inlines":[{"Text":"see https://example.com"}]}}]}"#;
    let mut rows = vec![
        tokenized(1, 9, "see https://example.com", stale),
        tokenized(2, 7, "+", stale),
    ];
    let tasks = m0044::Migration.run_local(&rows);
    assert_eq!(tasks.len(), 1);
    assert_eq!(tasks[0].id, 1);
    assert_eq!(tasks[0].content, "see https://example.com");
    m0044::Migration.store_tokens(&mut rows, tasks[0].id, "parsed".to_string());
    assert_eq!(rows[0].content_tokens, "parsed");
    assert_eq!(rows[1].content_tokens, stale, "kind-7 row must not be touched");
}

#[test]
fn migration_is_noop_on_empty_table() {
    assert!(m0044::Migration.run_local(&vec![]).is_empty());
}

#[test]
fn m0044_reparse_content_tokens_migration_is_idempotent() {
    let mut rows = vec![tokenized(1, 9, "hello", r#"{"blocks":[]}"#)];
    for _ in 0..2 {
        for task in m0044::Migration.run_local(&rows) {
            let tokens = format!("tokens of {}", task.content);
            m0044::Migration.store_tokens(&mut rows, task.id, tokens);
        }
        assert_eq!(rows[0].content_tokens, "tokens of hello");
    }
}

#[test]
fn reparsing_leaves_other_kinds_alone() {
    let mut rows = vec![
        tokenized(1, 9, "a", "old"),
        tokenized(2, 7, "b", "old"),
        tokenized(3, 5, "c", "old"),
        tokenized(4, 9, "d", "old"),
    ];
    for task in m0044::Migration.run_local(&rows) {
        let tokens = format!("tokens of {}", task.content);
        m0044::Migration.store_tokens(&mut rows, task.id, tokens);
    }
    let tokens: Vec<&str> = rows.iter().map(|row| row.content_tokens.as_str()).collect();
    assert_eq!(tokens, ["tokens of a", "old", "old", "tokens of d"]);
}

#[test]
fn adds_optional_darkmatter_metadata_columns() {
    let columns = vec!["id".to_string(), "mls_group_id".to_string()];
    let added = m0050::Migration.run_local(&columns);
    assert!(matches!(
        added[..],
        [m0050::NewColumn::Platform, m0050::NewColumn::TokenFingerprint]
    ));
}

#[test]
fn skips_columns_that_already_exist() {
    let columns = vec!["platform".to_string(), "token_fingerprint".to_string()];
    assert!(m0050::Migration.run_local(&columns).is_empty());
    let columns = vec!["platform".to_string()];
    assert!(matches!(
        m0050::Migration.run_local(&columns)[..],
        [m0050::NewColumn::TokenFingerprint]
    ));
}

#[test]
fn table_constraints_on_texts() {
    assert!(check_hex_64(&key("aB")));
    assert!(!check_hex_64(&"ab".repeat(31)));
    assert!(!check_hex_64(&format!("{}xy", "ab".repeat(31))));
    assert!(check_starts_hex_64(&format!("{}xy", "ab".repeat(31))));
    assert!(!check_starts_hex_64(&format!("xy{}", "ab".repeat(31))));
    assert!(check_not_blank("a"));
    assert!(!check_not_blank("  "));
    assert!(!check_not_blank(""));
    assert!(!check_not_blank("\0abc"));
    assert!(!check_not_blank(" \0abc"));
    assert!(check_not_blank("a\0"));
    assert!(!check_hex_64(&format!("{}\0{}", "ab".repeat(31), "a")));
    assert!(check_hex_64(&format!("{}\0xy", key("aB"))));
    assert!(!check_starts_hex_64(&format!("a\0{}", "b".repeat(62))));
}
