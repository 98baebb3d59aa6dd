//! Moves the push registrations into the account databases.

use vstd::prelude::*;

use crate::whitenoise::database::rust_migrations::migration::LocalMigration;
use crate::whitenoise::database::rust_migrations::table::{
    account_rows, check_not_blank, copy_account_rows, insert_all, not_blank, rows_of, Owned, Row,
};
use crate::whitenoise::text::same_text;

verus! {

pub struct Migration;

impl LocalMigration for Migration {
    open spec fn spec_version(&self) -> u32 {
        32
    }

    open spec fn spec_description(&self) -> Seq<char> {
        "Move push_registrations into per-account database"@
    }

    open spec fn spec_for_new_accounts_only(&self) -> bool {
        false
    }

    fn version(&self) -> (v: u32) {
        32
    }

    fn description(&self) -> (d: &'static str) {
        "Move push_registrations into per-account database"
    }

    fn for_new_accounts_only(&self) -> (b: bool) {
        false
    }
}

/// A row of the account's own `push_registrations` table.
#[derive(Debug)]
pub struct PushRegistrationRow {
    pub platform: String,
    pub raw_token: String,
    pub server_pubkey: String,
    pub relay_hint: Option<String>,
    pub created_at: i64,
    pub updated_at: i64,
    pub last_shared_at: Option<i64>,
}

impl Row for PushRegistrationRow {
    open spec fn clashes(&self, other: &Self) -> bool {
        false
    }

    open spec fn admissible(&self) -> bool {
        (self.platform@ == "apns"@ || self.platform@ == "fcm"@) && not_blank(self.raw_token@)
    }

    fn clashes_with(&self, _other: &Self) -> (r: bool) {
        false
    }

    fn is_admissible(&self) -> (r: bool) {
        (same_text(self.platform.as_str(), "apns") || same_text(self.platform.as_str(), "fcm"))
            && check_not_blank(self.raw_token.as_str())
    }
}

impl Migration {
    /// Copies the account's rows out of the shared table, where it still exists.
    pub fn run_local(
        &self,
        shared: Option<Vec<Owned<PushRegistrationRow>>>,
        account_pubkey: &str,
        local: &mut Vec<PushRegistrationRow>,
    )
        ensures
            final(local)@ == insert_all(
                old(local)@,
                account_rows(rows_of(shared), account_pubkey@),
            ),
    {
        copy_account_rows(shared, account_pubkey, local);
    }
}

} // verus!
