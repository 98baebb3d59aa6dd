//! Moves the group push tokens into the account databases: one token for each
//! leaf of a group.

use vstd::prelude::*;

use crate::whitenoise::database::rust_migrations::migration::LocalMigration;
use crate::whitenoise::database::rust_migrations::table::{
    account_rows, check_not_blank, copy_account_rows, insert_all, not_blank, rows_of, Owned, Row,
};
use crate::whitenoise::text::same_bytes;

verus! {

pub struct Migration;

impl LocalMigration for Migration {
    open spec fn spec_version(&self) -> u32 {
        34
    }

    open spec fn spec_description(&self) -> Seq<char> {
        "Move group_push_tokens into per-account database"@
    }

    open spec fn spec_for_new_accounts_only(&self) -> bool {
        false
    }

    fn version(&self) -> (v: u32) {
        34
    }

    fn description(&self) -> (d: &'static str) {
        "Move group_push_tokens into per-account database"
    }

    fn for_new_accounts_only(&self) -> (b: bool) {
        false
    }
}

/// A row of the account's own `group_push_tokens` table.
#[derive(Debug)]
pub struct GroupPushTokenRow {
    pub mls_group_id: Vec<u8>,
    pub member_pubkey: String,
    pub leaf_index: i64,
    pub server_pubkey: String,
    pub relay_hint: Option<String>,
    pub encrypted_token: String,
    pub created_at: i64,
    pub updated_at: i64,
}

impl Row for GroupPushTokenRow {
    open spec fn clashes(&self, other: &Self) -> bool {
        self.mls_group_id@ == other.mls_group_id@ && self.leaf_index == other.leaf_index
    }

    open spec fn admissible(&self) -> bool {
        self.leaf_index >= 0 && not_blank(self.encrypted_token@)
    }

    fn clashes_with(&self, other: &Self) -> (r: bool) {
        same_bytes(&self.mls_group_id, &other.mls_group_id) && self.leaf_index == other.leaf_index
    }

    fn is_admissible(&self) -> (r: bool) {
        self.leaf_index >= 0 && check_not_blank(self.encrypted_token.as_str())
    }
}

impl Migration {
    /// Copies the account's rows out of the shared table, where it still exists.
    pub fn run_local(
        &self,
        shared: Option<Vec<Owned<GroupPushTokenRow>>>,
        account_pubkey: &str,
        local: &mut Vec<GroupPushTokenRow>,
    )
        ensures
            final(local)@ == insert_all(
                old(local)@,
                account_rows(rows_of(shared), account_pubkey@),
            ),
    {
        copy_account_rows(shared, account_pubkey, local);
    }
}

} // verus!
