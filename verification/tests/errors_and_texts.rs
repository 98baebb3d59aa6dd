use whitenoise::whitenoise::error::WhitenoiseError;
use whitenoise::whitenoise::nostr::PublicKey;
use whitenoise::whitenoise::text::{
    decimal_text, find_char, join, same_bytes, same_text, signed_decimal_text,
};

fn key(byte: u8) -> PublicKey {
    PublicKey { bytes: [byte; 32] }
}

#[test]
fn plain_errors_have_their_messages() {
    for (error, message) in [
        (WhitenoiseError::Initialization, "Failed to initialize Whitenoise"),
        (WhitenoiseError::GroupNotFound, "Group not found"),
        (WhitenoiseError::AlreadyDepartedFromGroup, "Already departed from group"),
        (WhitenoiseError::MessageNotFound, "Message not found"),
        (WhitenoiseError::GroupMissingRelays, "Group has no relays configured"),
        (WhitenoiseError::AccountMissingKeyPackageRelays, "Account has no key package relays configured"),
        (WhitenoiseError::AccountNotFound, "Account not found"),
        (WhitenoiseError::UserNotFound, "User not found"),
        (WhitenoiseError::MissingUserReference, "Missing user reference: account exists but linked user row is absent (broken FK)"),
        (WhitenoiseError::ResolveAccountId, "Failed to resolve account ID for pubkey"),
        (WhitenoiseError::UserNotPersisted, "User not persisted - save the user before performing this operation"),
        (WhitenoiseError::ContactNotFound, "Contact not found"),
        (WhitenoiseError::RelayNotFound, "Relay not found"),
        (WhitenoiseError::UserRelayNotFound, "User relay not found"),
        (WhitenoiseError::AccountNotAuthorized, "Account not authorized"),
        (WhitenoiseError::ExternalSignerCannotExportNsec, "Cannot export nsec for external signer account - private key is not stored locally"),
        (WhitenoiseError::NotExternalSignerAccount, "Cannot register external signer for a non-external account"),
        (WhitenoiseError::InvalidPublicKey, "Invalid public key"),
        (WhitenoiseError::MembersNotInGroup, "One or more members to remove are not in the group"),
        (WhitenoiseError::WelcomeNotFound, "Welcome not found"),
        (WhitenoiseError::MissingEncodingTag, "Missing required encoding tag ['encoding','base64']"),
        (WhitenoiseError::InvalidTimestamp, "Invalid timestamp"),
        (WhitenoiseError::MlsMessagePreviouslyFailed, "MLS message previously failed and cannot be reprocessed"),
        (WhitenoiseError::EventPublishNoRelayAccepted, "Event publish failed: no relay accepted the event"),
        (WhitenoiseError::Nip04Error("x".to_string()), "nip04 direct message error"),
        (WhitenoiseError::JoinError("x".to_string()), "join error due to spawn blocking"),
    ] {
        assert_eq!(error.message(), message);
    }
}

#[test]
fn carried_messages_follow_a_prefix() {
    for (error, prefix) in [
        (WhitenoiseError::Filesystem("why".to_string()), "Filesystem error: "),
        (WhitenoiseError::LoggingSetup("why".to_string()), "Logging setup error: "),
        (WhitenoiseError::Configuration("why".to_string()), "Configuration error: "),
        (WhitenoiseError::ContactList("why".to_string()), "Contact list error: "),
        (WhitenoiseError::MdkSqliteStorage("why".to_string()), "MDK SQLite storage error: "),
        (WhitenoiseError::MdkCoreError("why".to_string()), "MDK error: "),
        (WhitenoiseError::Mip05("why".to_string()), "MIP-05 error: "),
        (WhitenoiseError::InvalidEvent("why".to_string()), "Invalid event: "),
        (WhitenoiseError::SecretsStore("why".to_string()), "Secrets store error: "),
        (WhitenoiseError::NostrClient("why".to_string()), "Nostr client error: "),
        (WhitenoiseError::NostrKey("why".to_string()), "Nostr key error: "),
        (WhitenoiseError::NostrUrl("why".to_string()), "Nostr url error: "),
        (WhitenoiseError::NostrTag("why".to_string()), "Nostr tag error: "),
        (WhitenoiseError::Database("why".to_string()), "Database error: "),
        (WhitenoiseError::Account("why".to_string()), "Account error: "),
        (WhitenoiseError::Login("why".to_string()), "Login error: "),
        (WhitenoiseError::SqlxError("why".to_string()), "SQLx error: "),
        (WhitenoiseError::SerializationError("why".to_string()), "Serialization error: "),
        (WhitenoiseError::NostrManager("why".to_string()), "Nostr manager error: "),
        (WhitenoiseError::EventProcessor("why".to_string()), "Event handler error: "),
        (WhitenoiseError::MessageAggregation("why".to_string()), "Message aggregation error: "),
        (WhitenoiseError::Other("why".to_string()), "Other error: "),
        (WhitenoiseError::InvalidInput("why".to_string()), "Invalid input: "),
        (WhitenoiseError::InvalidBase64("why".to_string()), "Invalid base64 key package content: "),
        (WhitenoiseError::MediaCache("why".to_string()), "Media cache operation failed: "),
        (WhitenoiseError::BlossomDownload("why".to_string()), "Failed to download from Blossom server: "),
        (WhitenoiseError::BlossomInsecureUrl("why".to_string()), "Blossom URL must use HTTPS: "),
        (WhitenoiseError::KeyPackagePublishFailed("why".to_string()), "Key package publish failed: "),
        (WhitenoiseError::MlsMessageUnprocessable("why".to_string()), "MLS message unprocessable: "),
        (WhitenoiseError::ImageDecryptionFailed("why".to_string()), "Image decryption failed: "),
        (WhitenoiseError::UnsupportedMediaFormat("why".to_string()), "Unsupported media format: "),
    ] {
        assert_eq!(error.message(), format!("{prefix}why"));
    }
}

#[test]
fn structured_errors_name_their_parts() {
    let text = |s: &str| s.to_string();
    for (error, message) in [
        (
            WhitenoiseError::InvalidEventKind { expected: text("443"), got: text("1") },
            text("Invalid event kind: expected 443, got 1"),
        ),
        (
            WhitenoiseError::IncompatibleMlsCiphersuite {
                expected: text("0x0001"),
                advertised: vec![text("0x0002"), text("0x0003")],
            },
            text("Incompatible mls_ciphersuite: expected 0x0001, advertised [0x0002, 0x0003]"),
        ),
        (
            WhitenoiseError::MissingMlsExtensions { missing: vec![] },
            text("Missing required mls_extensions []"),
        ),
        (
            WhitenoiseError::InvalidCursor { reason: "stale" },
            text("Invalid cursor: stale"),
        ),
        (
            WhitenoiseError::HashMismatch { expected: text("aa"), actual: text("bb") },
            text("Hash verification failed - expected: aa, actual: bb"),
        ),
        (
            WhitenoiseError::DownloadSizeLimitExceeded { limit: 1048576 },
            text("Download rejected: response body exceeds the 1048576 byte size limit"),
        ),
        (
            WhitenoiseError::MissingWelcomeRelays { member_pubkey: key(1), account_pubkey: key(2) },
            format!(
                "Cannot deliver MLS welcome for {}: no inbox/NIP-65 relays configured and account {} has no fallback relays",
                "01".repeat(32),
                "02".repeat(32)
            ),
        ),
    ] {
        assert_eq!(error.message(), message);
    }
}

#[test]
fn numbers_are_written_in_decimal() {
    for n in [0u64, 7, 10, 1048576, u64::MAX] {
        assert_eq!(decimal_text(n), n.to_string());
    }
    for n in [0i64, -1, 37, i64::MIN, i64::MAX] {
        assert_eq!(signed_decimal_text(n), n.to_string());
    }
}

#[test]
fn texts_are_joined_and_searched() {
    assert_eq!(join(&vec![], ", "), "");
    assert_eq!(join(&vec!["a".to_string(), "b".to_string()], ", "), "a, b");
    assert_eq!(find_char("abc_def_g", '_'), Some(3));
    assert_eq!(find_char("abc", '_'), None);
    assert!(same_text("a", "a") && !same_text("a", "ab"));
    assert!(same_bytes(&vec![1, 2], &vec![1, 2]) && !same_bytes(&vec![1], &vec![2]));
}
