//! Moves the account's group memberships into its own database.

use vstd::prelude::*;

use crate::whitenoise::database::rust_migrations::migration::LocalMigration;
use crate::whitenoise::database::rust_migrations::table::{
    account_rows, check_null_or_hex_64, copy_account_rows, insert_all, null_or_hex_64, rows_of, Owned, Row,
};
use crate::whitenoise::text::same_bytes;

verus! {

pub struct Migration;

impl LocalMigration for Migration {
    open spec fn spec_version(&self) -> u32 {
        36
    }

    open spec fn spec_description(&self) -> Seq<char> {
        "Move accounts_groups into per-account database"@
    }

    open spec fn spec_for_new_accounts_only(&self) -> bool {
        false
    }

    fn version(&self) -> (v: u32) {
        36
    }

    fn description(&self) -> (d: &'static str) {
        "Move accounts_groups into per-account database"
    }

    fn for_new_accounts_only(&self) -> (b: bool) {
        false
    }
}

/// A row of the account's own `accounts_groups` table.
#[derive(Debug)]
pub struct AccountGroupRow {
    pub mls_group_id: Vec<u8>,
    pub user_confirmation: Option<i64>,
    pub welcomer_pubkey: Option<String>,
    pub last_read_message_id: Option<String>,
    pub pin_order: Option<i64>,
    pub dm_peer_pubkey: Option<String>,
    pub archived_at: Option<i64>,
    pub removed_at: Option<i64>,
    pub self_removed: i64,
    pub muted_until: Option<i64>,
    pub chat_cleared_at: Option<i64>,
    pub created_at: i64,
    pub updated_at: i64,
}

impl Row for AccountGroupRow {
    open spec fn clashes(&self, other: &Self) -> bool {
        self.mls_group_id@ == other.mls_group_id@
    }

    open spec fn admissible(&self) -> bool {
        (self.user_confirmation matches Some(c) ==> c == 0 || c == 1) && null_or_hex_64(
            self.last_read_message_id,
        )
    }

    fn clashes_with(&self, other: &Self) -> (r: bool) {
        same_bytes(&self.mls_group_id, &other.mls_group_id)
    }

    fn is_admissible(&self) -> (r: bool) {
        (match self.user_confirmation {
            Some(c) => c == 0 || c == 1,
            None => true,
        }) && check_null_or_hex_64(&self.last_read_message_id)
    }
}

impl Migration {
    /// Copies the account's rows out of the shared table, where it still exists.
    pub fn run_local(
        &self,
        shared: Option<Vec<Owned<AccountGroupRow>>>,
        account_pubkey: &str,
        local: &mut Vec<AccountGroupRow>,
    )
        ensures
            final(local)@ == insert_all(
                old(local)@,
                account_rows(rows_of(shared), account_pubkey@),
            ),
    {
        copy_account_rows(shared, account_pubkey, local);
    }
}

} // verus!
