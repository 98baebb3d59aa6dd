//! Moves the published key packages into the account databases.

use vstd::prelude::*;

use crate::whitenoise::database::rust_migrations::migration::LocalMigration;
use crate::whitenoise::database::rust_migrations::table::{
    account_rows, copy_account_rows, insert_all, rows_of, Owned, Row,
};

verus! {

pub struct Migration;

impl LocalMigration for Migration {
    open spec fn spec_version(&self) -> u32 {
        17
    }

    open spec fn spec_description(&self) -> Seq<char> {
        "Move published_key_packages into per-account database"@
    }

    open spec fn spec_for_new_accounts_only(&self) -> bool {
        false
    }

    fn version(&self) -> (v: u32) {
        17
    }

    fn description(&self) -> (d: &'static str) {
        "Move published_key_packages into per-account database"
    }

    fn for_new_accounts_only(&self) -> (b: bool) {
        false
    }
}

/// A row of the account's own `published_key_packages` table.
#[derive(Debug)]
pub struct PublishedKeyPackageRow {
    pub key_package_hash_ref: Vec<u8>,
    pub event_id: String,
    pub kind: i64,
    pub d_tag: Option<String>,
    pub consumed_at: Option<i64>,
    pub key_material_deleted: i64,
    pub created_at: i64,
}

impl Row for PublishedKeyPackageRow {
    open spec fn clashes(&self, other: &Self) -> bool {
        self.event_id@ == other.event_id@
    }

    open spec fn admissible(&self) -> bool {
        true
    }

    fn clashes_with(&self, other: &Self) -> (r: bool) {
        self.event_id == other.event_id
    }

    fn is_admissible(&self) -> (r: bool) {
        true
    }
}

impl Migration {
    /// Copies the account's rows out of the shared table, where it still exists.
    pub fn run_local(
        &self,
        shared: Option<Vec<Owned<PublishedKeyPackageRow>>>,
        account_pubkey: &str,
        local: &mut Vec<PublishedKeyPackageRow>,
    )
        ensures
            final(local)@ == insert_all(
                old(local)@,
                account_rows(rows_of(shared), account_pubkey@),
            ),
    {
        copy_account_rows(shared, account_pubkey, local);
    }
}

} // verus!
