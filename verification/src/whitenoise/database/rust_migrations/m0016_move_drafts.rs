//! Moves unsent drafts into the account databases: one draft for each group.

use vstd::prelude::*;

use crate::whitenoise::database::rust_migrations::migration::LocalMigration;
use crate::whitenoise::database::rust_migrations::table::{
    account_rows, check_null_or_hex_64, copy_account_rows, insert_all, null_or_hex_64, rows_of, Owned, Row,
};
use crate::whitenoise::text::same_bytes;

verus! {

pub struct Migration;

impl LocalMigration for Migration {
    open spec fn spec_version(&self) -> u32 {
        16
    }

    open spec fn spec_description(&self) -> Seq<char> {
        "Move drafts into per-account database"@
    }

    open spec fn spec_for_new_accounts_only(&self) -> bool {
        false
    }

    fn version(&self) -> (v: u32) {
        16
    }

    fn description(&self) -> (d: &'static str) {
        "Move drafts into per-account database"
    }

    fn for_new_accounts_only(&self) -> (b: bool) {
        false
    }
}

/// A row of the account's own `drafts` table.
#[derive(Debug)]
pub struct DraftRow {
    pub mls_group_id: Vec<u8>,
    pub content: String,
    pub reply_to_id: Option<String>,
    pub media_attachments: String,
    pub created_at: i64,
    pub updated_at: i64,
}

impl Row for DraftRow {
    open spec fn clashes(&self, other: &Self) -> bool {
        self.mls_group_id@ == other.mls_group_id@
    }

    open spec fn admissible(&self) -> bool {
        null_or_hex_64(self.reply_to_id)
    }

    fn clashes_with(&self, other: &Self) -> (r: bool) {
        same_bytes(&self.mls_group_id, &other.mls_group_id)
    }

    fn is_admissible(&self) -> (r: bool) {
        check_null_or_hex_64(&self.reply_to_id)
    }
}

impl Migration {
    /// Copies the account's rows out of the shared table, where it still exists.
    pub fn run_local(
        &self,
        shared: Option<Vec<Owned<DraftRow>>>,
        account_pubkey: &str,
        local: &mut Vec<DraftRow>,
    )
        ensures
            final(local)@ == insert_all(
                old(local)@,
                account_rows(rows_of(shared), account_pubkey@),
            ),
    {
        copy_account_rows(shared, account_pubkey, local);
    }
}

} // verus!
