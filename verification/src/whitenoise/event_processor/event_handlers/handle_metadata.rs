//! Metadata: what users say of themselves.

use vstd::prelude::*;

use crate::whitenoise::error::{Result, WhitenoiseError};
use crate::whitenoise::nostr::{nostr_metadata, parse_metadata};

verus! {

/// What is stored of a user's metadata.
#[derive(Debug)]
pub struct UserMetadata {
    /// The metadata as JSON.
    pub metadata: String,
    /// When the metadata became known, in milliseconds. Metadata can be known
    /// and say nothing.
    pub metadata_known_at: Option<i64>,
}

/// What the attempt to read metadata means: text that is none is an error of
/// the event.
pub fn metadata_result(parsed: core::result::Result<String, String>) -> (metadata: Result<String>)
    ensures
        match parsed {
            Ok(m) => metadata == Ok::<String, WhitenoiseError>(m),
            Err(e) => metadata == Err::<String, WhitenoiseError>(WhitenoiseError::EventProcessor(e)),
        },
{
    match parsed {
        Ok(metadata) => Ok(metadata),
        Err(e) => Err(WhitenoiseError::EventProcessor(e)),
    }
}

/// Reads the content of a metadata event.
pub fn read_metadata(content: &str) -> (metadata: Result<String>)
    ensures
        match nostr_metadata(content@) {
            Ok(m) => metadata is Ok && metadata->Ok_0@ == m,
            Err(e) => metadata matches Err(WhitenoiseError::EventProcessor(m)) && m@ == e,
        },
{
    metadata_result(parse_metadata(content))
}

/// Stores metadata that was read, where it is due, and says whether the event
/// is to be recorded. `due` says that the user is new or that the event is
/// newer than what is stored.
pub fn apply_metadata(user: &mut UserMetadata, metadata: String, due: bool, now: i64) -> (record: bool)
    ensures
        record == due,
        due ==> final(user).metadata == metadata && final(user).metadata_known_at == Some(now),
        !due ==> *final(user) == *old(user),
{
    if due {
        user.metadata = metadata;
        user.metadata_known_at = Some(now);
    }
    due
}

/// Handles a metadata event: reads its content, and stores it where it is due.
/// `due` is what came of finding that out; it does not matter for content that
/// is no metadata.
pub fn handle_metadata(
    user: &mut UserMetadata,
    content: &str,
    due: Result<bool>,
    now: i64,
) -> (record: Result<bool>)
    ensures
        match nostr_metadata(content@) {
            Err(e) => *final(user) == *old(user) && (record matches Err(
                WhitenoiseError::EventProcessor(m),
            ) && m@ == e),
            Ok(m) => record == due && if due == Ok::<bool, WhitenoiseError>(true) {
                final(user).metadata@ == m && final(user).metadata_known_at == Some(now)
            } else {
                *final(user) == *old(user)
            },
        },
        record is Err ==> *final(user) == *old(user),
        record == Ok::<bool, WhitenoiseError>(false) ==> *final(user) == *old(user),
        record == Ok::<bool, WhitenoiseError>(true) ==> final(user).metadata_known_at == Some(now)
            && nostr_metadata(content@) == Ok::<Seq<char>, Seq<char>>(final(user).metadata@),
{
    match read_metadata(content) {
        Err(e) => Err(e),
        Ok(metadata) => match due {
            Err(e) => Err(e),
            Ok(due) => Ok(apply_metadata(user, metadata, due, now)),
        },
    }
}

} // verus!
