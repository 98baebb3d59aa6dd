//! Moves each account's settings into its own database. There is one row at most.

use vstd::prelude::*;

use crate::whitenoise::database::rust_migrations::migration::LocalMigration;
use crate::whitenoise::database::rust_migrations::table::{
    account_rows, copy_account_rows, insert_all, rows_of, Owned, Row,
};

verus! {

pub struct Migration;

impl LocalMigration for Migration {
    open spec fn spec_version(&self) -> u32 {
        15
    }

    open spec fn spec_description(&self) -> Seq<char> {
        "Move account_settings into per-account database"@
    }

    open spec fn spec_for_new_accounts_only(&self) -> bool {
        false
    }

    fn version(&self) -> (v: u32) {
        15
    }

    fn description(&self) -> (d: &'static str) {
        "Move account_settings into per-account database"
    }

    fn for_new_accounts_only(&self) -> (b: bool) {
        false
    }
}

/// A row of the account's own `account_settings` table.
#[derive(Debug)]
pub struct AccountSettingsRow {
    pub notifications_enabled: i64,
    pub created_at: i64,
    pub updated_at: i64,
}

impl Row for AccountSettingsRow {
    open spec fn clashes(&self, other: &Self) -> bool {
        true
    }

    open spec fn admissible(&self) -> bool {
        true
    }

    fn clashes_with(&self, _other: &Self) -> (r: bool) {
        true
    }

    fn is_admissible(&self) -> (r: bool) {
        true
    }
}

impl Migration {
    /// Copies the account's rows out of the shared table, where it still exists.
    pub fn run_local(
        &self,
        shared: Option<Vec<Owned<AccountSettingsRow>>>,
        account_pubkey: &str,
        local: &mut Vec<AccountSettingsRow>,
    )
        ensures
            final(local)@ == insert_all(
                old(local)@,
                account_rows(rows_of(shared), account_pubkey@),
            ),
    {
        copy_account_rows(shared, account_pubkey, local);
    }
}

} // verus!
