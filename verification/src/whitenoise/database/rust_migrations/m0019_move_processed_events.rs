//! Moves the account-scoped processed events into the account databases. Rows
//! that belong to no account stay shared.

use vstd::prelude::*;

use crate::whitenoise::database::rust_migrations::migration::LocalMigration;
use crate::whitenoise::database::rust_migrations::table::{
    account_rows, check_hex_64, copy_account_rows, insert_all, is_hex_64, rows_of, Owned, Row,
};

verus! {

pub struct Migration;

impl LocalMigration for Migration {
    open spec fn spec_version(&self) -> u32 {
        19
    }

    open spec fn spec_description(&self) -> Seq<char> {
        "Move account-scoped processed_events into per-account database"@
    }

    open spec fn spec_for_new_accounts_only(&self) -> bool {
        false
    }

    fn version(&self) -> (v: u32) {
        19
    }

    fn description(&self) -> (d: &'static str) {
        "Move account-scoped processed_events into per-account database"
    }

    fn for_new_accounts_only(&self) -> (b: bool) {
        false
    }
}

/// A row of the account's own `processed_events` table.
#[derive(Debug)]
pub struct ProcessedEventRow {
    pub event_id: String,
    pub created_at: String,
    pub event_created_at: Option<i64>,
    pub event_kind: Option<i64>,
    pub author: Option<String>,
}

impl Row for ProcessedEventRow {
    open spec fn clashes(&self, other: &Self) -> bool {
        self.event_id@ == other.event_id@
    }

    open spec fn admissible(&self) -> bool {
        is_hex_64(self.event_id@)
    }

    fn clashes_with(&self, other: &Self) -> (r: bool) {
        self.event_id == other.event_id
    }

    fn is_admissible(&self) -> (r: bool) {
        check_hex_64(self.event_id.as_str())
    }
}

impl Migration {
    /// Copies the account's rows out of the shared table, where it still exists.
    pub fn run_local(
        &self,
        shared: Option<Vec<Owned<ProcessedEventRow>>>,
        account_pubkey: &str,
        local: &mut Vec<ProcessedEventRow>,
    )
        ensures
            final(local)@ == insert_all(
                old(local)@,
                account_rows(rows_of(shared), account_pubkey@),
            ),
    {
        copy_account_rows(shared, account_pubkey, local);
    }
}

} // verus!
