//! The library's errors and their messages.

use vstd::prelude::*;
use vstd::string::StringExecFns;

use super::nostr::PublicKey;
use super::text::{decimal, decimal_text, join, joined, texts};

verus! {

/// What can go wrong. An error that comes from another component is carried
/// as that component's message.
#[derive(Debug)]
pub enum WhitenoiseError {
    Initialization,
    GroupNotFound,
    AlreadyDepartedFromGroup,
    MessageNotFound,
    GroupMissingRelays,
    AccountMissingKeyPackageRelays,
    AccountNotFound,
    UserNotFound,
    MissingUserReference,
    ResolveAccountId,
    UserNotPersisted,
    ContactNotFound,
    RelayNotFound,
    UserRelayNotFound,
    AccountNotAuthorized,
    ExternalSignerCannotExportNsec,
    NotExternalSignerAccount,
    InvalidPublicKey,
    MembersNotInGroup,
    WelcomeNotFound,
    MissingEncodingTag,
    InvalidTimestamp,
    MlsMessagePreviouslyFailed,
    EventPublishNoRelayAccepted,
    GiftwrapThrottled,
    GiftwrapDeferred,
    Nip04Error(String),
    JoinError(String),
    Filesystem(String),
    LoggingSetup(String),
    Configuration(String),
    ContactList(String),
    MuteList(String),
    MdkSqliteStorage(String),
    MdkCoreError(String),
    Mip05(String),
    InvalidEvent(String),
    SecretsStore(String),
    NostrClient(String),
    NostrKey(String),
    NostrUrl(String),
    NostrTag(String),
    Database(String),
    Account(String),
    Login(String),
    SqlxError(String),
    SerializationError(String),
    NostrManager(String),
    EventProcessor(String),
    MessageAggregation(String),
    Other(String),
    InvalidInput(String),
    InvalidBase64(String),
    MediaCache(String),
    BlossomDownload(String),
    BlossomInsecureUrl(String),
    KeyPackagePublishFailed(String),
    MlsMessageUnprocessable(String),
    ImageDecryptionFailed(String),
    UnsupportedMediaFormat(String),
    MarmotPublishFailed(String),
    Internal(String),
    SignerUnavailable(PublicKey),
    MarmotSessionUnavailable(PublicKey),
    InvalidEventKind { expected: String, got: String },
    IncompatibleMlsCiphersuite { expected: String, advertised: Vec<String> },
    MissingMlsExtensions { missing: Vec<String> },
    InvalidCursor { reason: &'static str },
    HashMismatch { expected: String, actual: String },
    DownloadSizeLimitExceeded { limit: usize },
    MissingWelcomeRelays { member_pubkey: PublicKey, account_pubkey: PublicKey },
}

/// What the library's operations return.
pub type Result<T> = core::result::Result<T, WhitenoiseError>;

/// A message made of parts.
fn message_of(first: &str, second: &str) -> (s: String)
    ensures
        s@ == first@ + second@,
{
    let mut s = String::from_str(first);
    s.append(second);
    s
}

impl WhitenoiseError {
    /// The error in words.
    pub open spec fn spec_message(self) -> Seq<char> {
        match self {
            WhitenoiseError::Initialization => "Failed to initialize Whitenoise"@,
            WhitenoiseError::GroupNotFound => "Group not found"@,
            WhitenoiseError::AlreadyDepartedFromGroup => "Already departed from group"@,
            WhitenoiseError::MessageNotFound => "Message not found"@,
            WhitenoiseError::GroupMissingRelays => "Group has no relays configured"@,
            WhitenoiseError::AccountMissingKeyPackageRelays => "Account has no key package relays configured"@,
            WhitenoiseError::AccountNotFound => "Account not found"@,
            WhitenoiseError::UserNotFound => "User not found"@,
            WhitenoiseError::MissingUserReference => "Missing user reference: account exists but linked user row is absent (broken FK)"@,
            WhitenoiseError::ResolveAccountId => "Failed to resolve account ID for pubkey"@,
            WhitenoiseError::UserNotPersisted => "User not persisted - save the user before performing this operation"@,
            WhitenoiseError::ContactNotFound => "Contact not found"@,
            WhitenoiseError::RelayNotFound => "Relay not found"@,
            WhitenoiseError::UserRelayNotFound => "User relay not found"@,
            WhitenoiseError::AccountNotAuthorized => "Account not authorized"@,
            WhitenoiseError::ExternalSignerCannotExportNsec => "Cannot export nsec for external signer account - private key is not stored locally"@,
            WhitenoiseError::NotExternalSignerAccount => "Cannot register external signer for a non-external account"@,
            WhitenoiseError::InvalidPublicKey => "Invalid public key"@,
            WhitenoiseError::MembersNotInGroup => "One or more members to remove are not in the group"@,
            WhitenoiseError::WelcomeNotFound => "Welcome not found"@,
            WhitenoiseError::MissingEncodingTag => "Missing required encoding tag ['encoding','base64']"@,
            WhitenoiseError::InvalidTimestamp => "Invalid timestamp"@,
            WhitenoiseError::MlsMessagePreviouslyFailed => "MLS message previously failed and cannot be reprocessed"@,
            WhitenoiseError::EventPublishNoRelayAccepted => "Event publish failed: no relay accepted the event"@,
            WhitenoiseError::GiftwrapThrottled => "Gift-wrap processing throttled"@,
            WhitenoiseError::GiftwrapDeferred => "Gift-wrap processing deferred"@,
            WhitenoiseError::Nip04Error(_) => "nip04 direct message error"@,
            WhitenoiseError::JoinError(_) => "join error due to spawn blocking"@,
            WhitenoiseError::Filesystem(e) => "Filesystem error: "@ + e@,
            WhitenoiseError::LoggingSetup(e) => "Logging setup error: "@ + e@,
            WhitenoiseError::Configuration(e) => "Configuration error: "@ + e@,
            WhitenoiseError::ContactList(e) => "Contact list error: "@ + e@,
            WhitenoiseError::MuteList(e) => "Mute list error: "@ + e@,
            WhitenoiseError::MdkSqliteStorage(e) => "MDK SQLite storage error: "@ + e@,
            WhitenoiseError::MdkCoreError(e) => "MDK error: "@ + e@,
            WhitenoiseError::Mip05(e) => "MIP-05 error: "@ + e@,
            WhitenoiseError::InvalidEvent(e) => "Invalid event: "@ + e@,
            WhitenoiseError::SecretsStore(e) => "Secrets store error: "@ + e@,
            WhitenoiseError::NostrClient(e) => "Nostr client error: "@ + e@,
            WhitenoiseError::NostrKey(e) => "Nostr key error: "@ + e@,
            WhitenoiseError::NostrUrl(e) => "Nostr url error: "@ + e@,
            WhitenoiseError::NostrTag(e) => "Nostr tag error: "@ + e@,
            WhitenoiseError::Database(e) => "Database error: "@ + e@,
            WhitenoiseError::Account(e) => "Account error: "@ + e@,
            WhitenoiseError::Login(e) => "Login error: "@ + e@,
            WhitenoiseError::SqlxError(e) => "SQLx error: "@ + e@,
            WhitenoiseError::SerializationError(e) => "Serialization error: "@ + e@,
            WhitenoiseError::NostrManager(e) => "Nostr manager error: "@ + e@,
            WhitenoiseError::EventProcessor(e) => "Event handler error: "@ + e@,
            WhitenoiseError::MessageAggregation(e) => "Message aggregation error: "@ + e@,
            WhitenoiseError::Other(e) => "Other error: "@ + e@,
            WhitenoiseError::InvalidInput(e) => "Invalid input: "@ + e@,
            WhitenoiseError::InvalidBase64(e) => "Invalid base64 key package content: "@ + e@,
            WhitenoiseError::MediaCache(e) => "Media cache operation failed: "@ + e@,
            WhitenoiseError::BlossomDownload(e) => "Failed to download from Blossom server: "@ + e@,
            WhitenoiseError::BlossomInsecureUrl(e) => "Blossom URL must use HTTPS: "@ + e@,
            WhitenoiseError::KeyPackagePublishFailed(e) => "Key package publish failed: "@ + e@,
            WhitenoiseError::MlsMessageUnprocessable(e) => "MLS message unprocessable: "@ + e@,
            WhitenoiseError::ImageDecryptionFailed(e) => "Image decryption failed: "@ + e@,
            WhitenoiseError::UnsupportedMediaFormat(e) => "Unsupported media format: "@ + e@,
            WhitenoiseError::MarmotPublishFailed(e) => "Marmot publish failed: "@ + e@,
            WhitenoiseError::Internal(e) => "Internal error: "@ + e@,
            WhitenoiseError::SignerUnavailable(key) => "Signer unavailable for account "@ + key.spec_hex(),
            WhitenoiseError::MarmotSessionUnavailable(key) => "Marmot session unavailable for account "@ + key.spec_hex(),
            WhitenoiseError::InvalidEventKind { expected, got } =>
                "Invalid event kind: expected "@ + expected@ + ", got "@ + got@,
            WhitenoiseError::IncompatibleMlsCiphersuite { expected, advertised } =>
                "Incompatible mls_ciphersuite: expected "@ + expected@ + ", advertised ["@
                    + joined(texts(advertised@), ", "@) + "]"@,
            WhitenoiseError::MissingMlsExtensions { missing } =>
                "Missing required mls_extensions ["@ + joined(texts(missing@), ", "@) + "]"@,
            WhitenoiseError::InvalidCursor { reason } => "Invalid cursor: "@ + reason@,
            WhitenoiseError::HashMismatch { expected, actual } =>
                "Hash verification failed - expected: "@ + expected@ + ", actual: "@ + actual@,
            WhitenoiseError::DownloadSizeLimitExceeded { limit } =>
                "Download rejected: response body exceeds the "@ + decimal(limit as nat)
                    + " byte size limit"@,
            WhitenoiseError::MissingWelcomeRelays { member_pubkey, account_pubkey } =>
                "Cannot deliver MLS welcome for "@ + member_pubkey.spec_hex()
                    + ": no inbox/NIP-65 relays configured and account "@ + account_pubkey.spec_hex()
                    + " has no fallback relays"@,
        }
    }

    /// The error in words.
    pub fn message(&self) -> (s: String)
        ensures
            s@ == self.spec_message(),
    {
        match self {
            WhitenoiseError::Initialization => String::from_str("Failed to initialize Whitenoise"),
            WhitenoiseError::GroupNotFound => String::from_str("Group not found"),
            WhitenoiseError::AlreadyDepartedFromGroup => String::from_str("Already departed from group"),
            WhitenoiseError::MessageNotFound => String::from_str("Message not found"),
            WhitenoiseError::GroupMissingRelays => String::from_str("Group has no relays configured"),
            WhitenoiseError::AccountMissingKeyPackageRelays => String::from_str("Account has no key package relays configured"),
            WhitenoiseError::AccountNotFound => String::from_str("Account not found"),
            WhitenoiseError::UserNotFound => String::from_str("User not found"),
            WhitenoiseError::MissingUserReference => String::from_str("Missing user reference: account exists but linked user row is absent (broken FK)"),
            WhitenoiseError::ResolveAccountId => String::from_str("Failed to resolve account ID for pubkey"),
            WhitenoiseError::UserNotPersisted => String::from_str("User not persisted - save the user before performing this operation"),
            WhitenoiseError::ContactNotFound => String::from_str("Contact not found"),
            WhitenoiseError::RelayNotFound => String::from_str("Relay not found"),
            WhitenoiseError::UserRelayNotFound => String::from_str("User relay not found"),
            WhitenoiseError::AccountNotAuthorized => String::from_str("Account not authorized"),
            WhitenoiseError::ExternalSignerCannotExportNsec => String::from_str("Cannot export nsec for external signer account - private key is not stored locally"),
            WhitenoiseError::NotExternalSignerAccount => String::from_str("Cannot register external signer for a non-external account"),
            WhitenoiseError::InvalidPublicKey => String::from_str("Invalid public key"),
            WhitenoiseError::MembersNotInGroup => String::from_str("One or more members to remove are not in the group"),
            WhitenoiseError::WelcomeNotFound => String::from_str("Welcome not found"),
            WhitenoiseError::MissingEncodingTag => String::from_str("Missing required encoding tag ['encoding','base64']"),
            WhitenoiseError::InvalidTimestamp => String::from_str("Invalid timestamp"),
            WhitenoiseError::MlsMessagePreviouslyFailed => String::from_str("MLS message previously failed and cannot be reprocessed"),
            WhitenoiseError::EventPublishNoRelayAccepted => String::from_str("Event publish failed: no relay accepted the event"),
            WhitenoiseError::GiftwrapThrottled => String::from_str("Gift-wrap processing throttled"),
            WhitenoiseError::GiftwrapDeferred => String::from_str("Gift-wrap processing deferred"),
            WhitenoiseError::Nip04Error(_) => String::from_str("nip04 direct message error"),
            WhitenoiseError::JoinError(_) => String::from_str("join error due to spawn blocking"),
            WhitenoiseError::Filesystem(e) => message_of("Filesystem error: ", e.as_str()),
            WhitenoiseError::LoggingSetup(e) => message_of("Logging setup error: ", e.as_str()),
            WhitenoiseError::Configuration(e) => message_of("Configuration error: ", e.as_str()),
            WhitenoiseError::ContactList(e) => message_of("Contact list error: ", e.as_str()),
            WhitenoiseError::MuteList(e) => message_of("Mute list error: ", e.as_str()),
            WhitenoiseError::MdkSqliteStorage(e) => message_of("MDK SQLite storage error: ", e.as_str()),
            WhitenoiseError::MdkCoreError(e) => message_of("MDK error: ", e.as_str()),
            WhitenoiseError::Mip05(e) => message_of("MIP-05 error: ", e.as_str()),
            WhitenoiseError::InvalidEvent(e) => message_of("Invalid event: ", e.as_str()),
            WhitenoiseError::SecretsStore(e) => message_of("Secrets store error: ", e.as_str()),
            WhitenoiseError::NostrClient(e) => message_of("Nostr client error: ", e.as_str()),
            WhitenoiseError::NostrKey(e) => message_of("Nostr key error: ", e.as_str()),
            WhitenoiseError::NostrUrl(e) => message_of("Nostr url error: ", e.as_str()),
            WhitenoiseError::NostrTag(e) => message_of("Nostr tag error: ", e.as_str()),
            WhitenoiseError::Database(e) => message_of("Database error: ", e.as_str()),
            WhitenoiseError::Account(e) => message_of("Account error: ", e.as_str()),
            WhitenoiseError::Login(e) => message_of("Login error: ", e.as_str()),
            WhitenoiseError::SqlxError(e) => message_of("SQLx error: ", e.as_str()),
            WhitenoiseError::SerializationError(e) => message_of("Serialization error: ", e.as_str()),
            WhitenoiseError::NostrManager(e) => message_of("Nostr manager error: ", e.as_str()),
            WhitenoiseError::EventProcessor(e) => message_of("Event handler error: ", e.as_str()),
            WhitenoiseError::MessageAggregation(e) => message_of("Message aggregation error: ", e.as_str()),
            WhitenoiseError::Other(e) => message_of("Other error: ", e.as_str()),
            WhitenoiseError::InvalidInput(e) => message_of("Invalid input: ", e.as_str()),
            WhitenoiseError::InvalidBase64(e) => message_of("Invalid base64 key package content: ", e.as_str()),
            WhitenoiseError::MediaCache(e) => message_of("Media cache operation failed: ", e.as_str()),
            WhitenoiseError::BlossomDownload(e) => message_of("Failed to download from Blossom server: ", e.as_str()),
            WhitenoiseError::BlossomInsecureUrl(e) => message_of("Blossom URL must use HTTPS: ", e.as_str()),
            WhitenoiseError::KeyPackagePublishFailed(e) => message_of("Key package publish failed: ", e.as_str()),
            WhitenoiseError::MlsMessageUnprocessable(e) => message_of("MLS message unprocessable: ", e.as_str()),
            WhitenoiseError::ImageDecryptionFailed(e) => message_of("Image decryption failed: ", e.as_str()),
            WhitenoiseError::UnsupportedMediaFormat(e) => message_of("Unsupported media format: ", e.as_str()),
            WhitenoiseError::MarmotPublishFailed(e) => message_of("Marmot publish failed: ", e.as_str()),
            WhitenoiseError::Internal(e) => message_of("Internal error: ", e.as_str()),
            WhitenoiseError::SignerUnavailable(key) => message_of("Signer unavailable for account ", key.to_hex().as_str()),
            WhitenoiseError::MarmotSessionUnavailable(key) => message_of("Marmot session unavailable for account ", key.to_hex().as_str()),
            WhitenoiseError::InvalidEventKind { expected, got } => {
                let mut s = message_of("Invalid event kind: expected ", expected.as_str());
                s.append(", got ");
                s.append(got.as_str());
                s
            },
            WhitenoiseError::IncompatibleMlsCiphersuite { expected, advertised } => {
                let mut s = message_of(
                    "Incompatible mls_ciphersuite: expected ",
                    expected.as_str(),
                );
                s.append(", advertised [");
                s.append(join(advertised, ", ").as_str());
                s.append("]");
                s
            },
            WhitenoiseError::MissingMlsExtensions { missing } => {
                let mut s = message_of(
                    "Missing required mls_extensions [",
                    join(missing, ", ").as_str(),
                );
                s.append("]");
                s
            },
            WhitenoiseError::InvalidCursor { reason } => message_of("Invalid cursor: ", reason),
            WhitenoiseError::HashMismatch { expected, actual } => {
                let mut s = message_of("Hash verification failed - expected: ", expected.as_str());
                s.append(", actual: ");
                s.append(actual.as_str());
                s
            },
            WhitenoiseError::DownloadSizeLimitExceeded { limit } => {
                let mut s = message_of(
                    "Download rejected: response body exceeds the ",
                    decimal_text(*limit as u64).as_str(),
                );
                s.append(" byte size limit");
                s
            },
            WhitenoiseError::MissingWelcomeRelays { member_pubkey, account_pubkey } => {
                let mut s = message_of(
                    "Cannot deliver MLS welcome for ",
                    member_pubkey.to_hex().as_str(),
                );
                s.append(": no inbox/NIP-65 relays configured and account ");
                s.append(account_pubkey.to_hex().as_str());
                s.append(" has no fallback relays");
                s
            },
        }
    }
}

} // verus!
