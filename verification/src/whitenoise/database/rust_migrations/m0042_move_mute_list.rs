//! Moves the mute list into the account databases.

use vstd::prelude::*;

use crate::whitenoise::database::rust_migrations::migration::LocalMigration;
use crate::whitenoise::database::rust_migrations::table::{
    account_rows, check_starts_hex_64, insert_all, rows_of, select_account_rows, starts_hex_64,
    try_insert_all, Owned, Row,
};

verus! {

pub struct Migration;

impl LocalMigration for Migration {
    open spec fn spec_version(&self) -> u32 {
        42
    }

    open spec fn spec_description(&self) -> Seq<char> {
        "Move mute_list into per-account database"@
    }

    open spec fn spec_for_new_accounts_only(&self) -> bool {
        false
    }

    fn version(&self) -> (v: u32) {
        42
    }

    fn description(&self) -> (d: &'static str) {
        "Move mute_list into per-account database"
    }

    fn for_new_accounts_only(&self) -> (b: bool) {
        false
    }
}

/// A row of the account's own `mute_list` table.
#[derive(Debug)]
pub struct MuteListRow {
    pub muted_pubkey: String,
    pub is_private: i64,
    pub created_at: i64,
}

impl Row for MuteListRow {
    open spec fn clashes(&self, other: &Self) -> bool {
        self.muted_pubkey@ == other.muted_pubkey@
    }

    open spec fn admissible(&self) -> bool {
        starts_hex_64(self.muted_pubkey@) && (self.is_private == 0 || self.is_private == 1)
    }

    fn clashes_with(&self, other: &Self) -> (r: bool) {
        self.muted_pubkey == other.muted_pubkey
    }

    fn is_admissible(&self) -> (r: bool) {
        check_starts_hex_64(self.muted_pubkey.as_str()) && (self.is_private == 0
            || self.is_private == 1)
    }
}

impl Migration {
    /// Copies the account's entries out of the shared table, where it still
    /// exists. Returns how many entries went in and how many were refused.
    pub fn run_local(
        &self,
        shared: Option<Vec<Owned<MuteListRow>>>,
        account_pubkey: &str,
        local: &mut Vec<MuteListRow>,
    ) -> (counts: (usize, usize))
        ensures
            final(local)@ == insert_all(
                old(local)@,
                account_rows(rows_of(shared), account_pubkey@),
            ),
            counts.0 == final(local).len() - old(local).len(),
            counts.0 + counts.1 == account_rows(rows_of(shared), account_pubkey@).len(),
    {
        match shared {
            None => (0, 0),
            Some(rows) => {
                let mine = select_account_rows(rows, account_pubkey);
                let total: usize = mine.len();
                proof {
                    lemma_copied_at_most(local@, mine@);
                }
                let copied: usize = try_insert_all(local, mine);
                (copied, total - copied)
            },
        }
    }
}

proof fn lemma_copied_at_most(table: Seq<MuteListRow>, rows: Seq<MuteListRow>)
    ensures
        insert_all(table, rows).len() <= table.len() + rows.len(),
    decreases rows.len(),
{
    if rows.len() > 0 {
        lemma_copied_at_most(table, rows.drop_last());
    }
}

} // verus!
