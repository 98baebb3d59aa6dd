//! Moves the media references into the account databases.

use vstd::prelude::*;

use crate::whitenoise::database::rust_migrations::migration::LocalMigration;
use crate::whitenoise::database::rust_migrations::table::{
    account_rows, copy_account_rows, insert_all, rows_of, Owned, Row,
};
use crate::whitenoise::text::same_bytes;

verus! {

pub struct Migration;

impl LocalMigration for Migration {
    open spec fn spec_version(&self) -> u32 {
        29
    }

    open spec fn spec_description(&self) -> Seq<char> {
        "Move media_references into per-account database"@
    }

    open spec fn spec_for_new_accounts_only(&self) -> bool {
        false
    }

    fn version(&self) -> (v: u32) {
        29
    }

    fn description(&self) -> (d: &'static str) {
        "Move media_references into per-account database"
    }

    fn for_new_accounts_only(&self) -> (b: bool) {
        false
    }
}

/// A row of the account's own `media_references` table.
#[derive(Debug)]
pub struct MediaReferenceRow {
    pub mls_group_id: Vec<u8>,
    pub encrypted_file_hash: String,
    pub media_type: String,
    pub nostr_key: Option<String>,
    pub file_metadata: Option<Vec<u8>>,
    pub original_file_hash: Option<String>,
    pub nonce: Option<String>,
    pub scheme_version: Option<String>,
    pub created_at: i64,
}

impl Row for MediaReferenceRow {
    open spec fn clashes(&self, other: &Self) -> bool {
        self.mls_group_id@ == other.mls_group_id@ && self.encrypted_file_hash@
            == other.encrypted_file_hash@
    }

    open spec fn admissible(&self) -> bool {
        true
    }

    fn clashes_with(&self, other: &Self) -> (r: bool) {
        same_bytes(&self.mls_group_id, &other.mls_group_id) && self.encrypted_file_hash
            == other.encrypted_file_hash
    }

    fn is_admissible(&self) -> (r: bool) {
        true
    }
}

impl Migration {
    /// Copies the account's rows out of the shared table, where it still exists.
    pub fn run_local(
        &self,
        shared: Option<Vec<Owned<MediaReferenceRow>>>,
        account_pubkey: &str,
        local: &mut Vec<MediaReferenceRow>,
    )
        ensures
            final(local)@ == insert_all(
                old(local)@,
                account_rows(rows_of(shared), account_pubkey@),
            ),
    {
        copy_account_rows(shared, account_pubkey, local);
    }
}

} // verus!
