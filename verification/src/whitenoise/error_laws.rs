//! What each error says.

use vstd::prelude::*;

use super::error::WhitenoiseError;
use super::nostr::hex_text;
use super::text::{decimal, joined, texts};

verus! {

/// An error without details says one sentence.
pub proof fn plain_errors_say_their_sentence(e: WhitenoiseError)
    ensures
        e is Initialization ==> e.spec_message() == "Failed to initialize Whitenoise"@,
        e is GroupNotFound ==> e.spec_message() == "Group not found"@,
        e is AlreadyDepartedFromGroup ==> e.spec_message() == "Already departed from group"@,
        e is MessageNotFound ==> e.spec_message() == "Message not found"@,
        e is GroupMissingRelays ==> e.spec_message() == "Group has no relays configured"@,
        e is AccountMissingKeyPackageRelays ==> e.spec_message()
            == "Account has no key package relays configured"@,
        e is AccountNotFound ==> e.spec_message() == "Account not found"@,
        e is UserNotFound ==> e.spec_message() == "User not found"@,
        e is MissingUserReference ==> e.spec_message()
            == "Missing user reference: account exists but linked user row is absent (broken FK)"@,
        e is ResolveAccountId ==> e.spec_message() == "Failed to resolve account ID for pubkey"@,
        e is UserNotPersisted ==> e.spec_message()
            == "User not persisted - save the user before performing this operation"@,
        e is ContactNotFound ==> e.spec_message() == "Contact not found"@,
        e is RelayNotFound ==> e.spec_message() == "Relay not found"@,
        e is UserRelayNotFound ==> e.spec_message() == "User relay not found"@,
        e is AccountNotAuthorized ==> e.spec_message() == "Account not authorized"@,
        e is ExternalSignerCannotExportNsec ==> e.spec_message()
            == "Cannot export nsec for external signer account - private key is not stored locally"@,
        e is NotExternalSignerAccount ==> e.spec_message()
            == "Cannot register external signer for a non-external account"@,
        e is InvalidPublicKey ==> e.spec_message() == "Invalid public key"@,
        e is MembersNotInGroup ==> e.spec_message()
            == "One or more members to remove are not in the group"@,
        e is WelcomeNotFound ==> e.spec_message() == "Welcome not found"@,
        e is MissingEncodingTag ==> e.spec_message()
            == "Missing required encoding tag ['encoding','base64']"@,
        e is InvalidTimestamp ==> e.spec_message() == "Invalid timestamp"@,
        e is MlsMessagePreviouslyFailed ==> e.spec_message()
            == "MLS message previously failed and cannot be reprocessed"@,
        e is EventPublishNoRelayAccepted ==> e.spec_message()
            == "Event publish failed: no relay accepted the event"@,
        e is GiftwrapThrottled ==> e.spec_message() == "Gift-wrap processing throttled"@,
        e is GiftwrapDeferred ==> e.spec_message() == "Gift-wrap processing deferred"@,
{
}

/// An error of another component says where it comes from and then, with two
/// exceptions, what that component said.
pub proof fn errors_of_components_say_what_was_said(e: WhitenoiseError)
    ensures
        e is Nip04Error ==> e.spec_message() == "nip04 direct message error"@,
        e is JoinError ==> e.spec_message() == "join error due to spawn blocking"@,
        e is Filesystem ==> e.spec_message() == "Filesystem error: "@ + e->Filesystem_0@,
        e is LoggingSetup ==> e.spec_message() == "Logging setup error: "@ + e->LoggingSetup_0@,
        e is Configuration ==> e.spec_message() == "Configuration error: "@ + e->Configuration_0@,
        e is ContactList ==> e.spec_message() == "Contact list error: "@ + e->ContactList_0@,
        e is MuteList ==> e.spec_message() == "Mute list error: "@ + e->MuteList_0@,
        e is MdkSqliteStorage ==> e.spec_message() == "MDK SQLite storage error: "@
            + e->MdkSqliteStorage_0@,
        e is MdkCoreError ==> e.spec_message() == "MDK error: "@ + e->MdkCoreError_0@,
        e is Mip05 ==> e.spec_message() == "MIP-05 error: "@ + e->Mip05_0@,
        e is InvalidEvent ==> e.spec_message() == "Invalid event: "@ + e->InvalidEvent_0@,
        e is SecretsStore ==> e.spec_message() == "Secrets store error: "@ + e->SecretsStore_0@,
        e is NostrClient ==> e.spec_message() == "Nostr client error: "@ + e->NostrClient_0@,
        e is NostrKey ==> e.spec_message() == "Nostr key error: "@ + e->NostrKey_0@,
        e is NostrUrl ==> e.spec_message() == "Nostr url error: "@ + e->NostrUrl_0@,
        e is NostrTag ==> e.spec_message() == "Nostr tag error: "@ + e->NostrTag_0@,
        e is Database ==> e.spec_message() == "Database error: "@ + e->Database_0@,
        e is Account ==> e.spec_message() == "Account error: "@ + e->Account_0@,
        e is Login ==> e.spec_message() == "Login error: "@ + e->Login_0@,
        e is SqlxError ==> e.spec_message() == "SQLx error: "@ + e->SqlxError_0@,
        e is SerializationError ==> e.spec_message() == "Serialization error: "@
            + e->SerializationError_0@,
        e is NostrManager ==> e.spec_message() == "Nostr manager error: "@ + e->NostrManager_0@,
        e is EventProcessor ==> e.spec_message() == "Event handler error: "@ + e->EventProcessor_0@,
        e is MessageAggregation ==> e.spec_message() == "Message aggregation error: "@
            + e->MessageAggregation_0@,
        e is Other ==> e.spec_message() == "Other error: "@ + e->Other_0@,
        e is InvalidInput ==> e.spec_message() == "Invalid input: "@ + e->InvalidInput_0@,
        e is InvalidBase64 ==> e.spec_message() == "Invalid base64 key package content: "@
            + e->InvalidBase64_0@,
        e is MediaCache ==> e.spec_message() == "Media cache operation failed: "@
            + e->MediaCache_0@,
        e is BlossomDownload ==> e.spec_message() == "Failed to download from Blossom server: "@
            + e->BlossomDownload_0@,
        e is BlossomInsecureUrl ==> e.spec_message() == "Blossom URL must use HTTPS: "@
            + e->BlossomInsecureUrl_0@,
        e is KeyPackagePublishFailed ==> e.spec_message() == "Key package publish failed: "@
            + e->KeyPackagePublishFailed_0@,
        e is MlsMessageUnprocessable ==> e.spec_message() == "MLS message unprocessable: "@
            + e->MlsMessageUnprocessable_0@,
        e is ImageDecryptionFailed ==> e.spec_message() == "Image decryption failed: "@
            + e->ImageDecryptionFailed_0@,
        e is UnsupportedMediaFormat ==> e.spec_message() == "Unsupported media format: "@
            + e->UnsupportedMediaFormat_0@,
        e is MarmotPublishFailed ==> e.spec_message() == "Marmot publish failed: "@
            + e->MarmotPublishFailed_0@,
        e is Internal ==> e.spec_message() == "Internal error: "@ + e->Internal_0@,
{
}

/// An error with details says them, keys in hexadecimal, numbers in decimal and
/// lists with commas.
pub proof fn detailed_errors_say_their_details(e: WhitenoiseError)
    ensures
        e is SignerUnavailable ==> e.spec_message() == "Signer unavailable for account "@
            + hex_text(e->SignerUnavailable_0.bytes@),
        e is MarmotSessionUnavailable ==> e.spec_message()
            == "Marmot session unavailable for account "@
            + hex_text(e->MarmotSessionUnavailable_0.bytes@),
        e is InvalidEventKind ==> e.spec_message() == "Invalid event kind: expected "@
            + e->InvalidEventKind_expected@ + ", got "@ + e->InvalidEventKind_got@,
        e is IncompatibleMlsCiphersuite ==> e.spec_message()
            == "Incompatible mls_ciphersuite: expected "@ + e->IncompatibleMlsCiphersuite_expected@
            + ", advertised ["@ + joined(texts(e->IncompatibleMlsCiphersuite_advertised@), ", "@)
            + "]"@,
        e is MissingMlsExtensions ==> e.spec_message() == "Missing required mls_extensions ["@
            + joined(texts(e->MissingMlsExtensions_missing@), ", "@) + "]"@,
        e is InvalidCursor ==> e.spec_message() == "Invalid cursor: "@ + e->InvalidCursor_reason@,
        e is HashMismatch ==> e.spec_message() == "Hash verification failed - expected: "@
            + e->HashMismatch_expected@ + ", actual: "@ + e->HashMismatch_actual@,
        e is DownloadSizeLimitExceeded ==> e.spec_message()
            == "Download rejected: response body exceeds the "@
            + decimal(e->DownloadSizeLimitExceeded_limit as nat) + " byte size limit"@,
        e is MissingWelcomeRelays ==> e.spec_message() == "Cannot deliver MLS welcome for "@
            + hex_text(e->MissingWelcomeRelays_member_pubkey.bytes@)
            + ": no inbox/NIP-65 relays configured and account "@
            + hex_text(e->MissingWelcomeRelays_account_pubkey.bytes@) + " has no fallback relays"@,
{
}

} // verus!
