//! Moves the published events into the account databases.

use vstd::prelude::*;

use crate::whitenoise::database::rust_migrations::migration::LocalMigration;
use crate::whitenoise::database::rust_migrations::table::{
    account_rows, check_starts_hex_64, copy_account_rows, insert_all, rows_of, starts_hex_64, Owned, Row,
};

verus! {

pub struct Migration;

impl LocalMigration for Migration {
    open spec fn spec_version(&self) -> u32 {
        18
    }

    open spec fn spec_description(&self) -> Seq<char> {
        "Move published_events into per-account database"@
    }

    open spec fn spec_for_new_accounts_only(&self) -> bool {
        false
    }

    fn version(&self) -> (v: u32) {
        18
    }

    fn description(&self) -> (d: &'static str) {
        "Move published_events into per-account database"
    }

    fn for_new_accounts_only(&self) -> (b: bool) {
        false
    }
}

/// A row of the account's own `published_events` table.
#[derive(Debug)]
pub struct PublishedEventRow {
    pub event_id: String,
    pub created_at: String,
}

impl Row for PublishedEventRow {
    open spec fn clashes(&self, other: &Self) -> bool {
        self.event_id@ == other.event_id@
    }

    open spec fn admissible(&self) -> bool {
        starts_hex_64(self.event_id@)
    }

    fn clashes_with(&self, other: &Self) -> (r: bool) {
        self.event_id == other.event_id
    }

    fn is_admissible(&self) -> (r: bool) {
        check_starts_hex_64(self.event_id.as_str())
    }
}

impl Migration {
    /// Copies the account's rows out of the shared table, where it still exists.
    pub fn run_local(
        &self,
        shared: Option<Vec<Owned<PublishedEventRow>>>,
        account_pubkey: &str,
        local: &mut Vec<PublishedEventRow>,
    )
        ensures
            final(local)@ == insert_all(
                old(local)@,
                account_rows(rows_of(shared), account_pubkey@),
            ),
    {
        copy_account_rows(shared, account_pubkey, local);
    }
}

} // verus!
