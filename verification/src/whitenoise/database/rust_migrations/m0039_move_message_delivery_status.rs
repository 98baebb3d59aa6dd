//! Moves the delivery status of an account's messages into its own database.

use vstd::prelude::*;

use crate::whitenoise::database::rust_migrations::migration::LocalMigration;
use crate::whitenoise::database::rust_migrations::table::{insert_all, try_insert_all, Row};
use crate::whitenoise::text::{same_bytes, same_text};

verus! {

pub struct Migration;

impl LocalMigration for Migration {
    open spec fn spec_version(&self) -> u32 {
        39
    }

    open spec fn spec_description(&self) -> Seq<char> {
        "Move message_delivery_status into per-account database"@
    }

    open spec fn spec_for_new_accounts_only(&self) -> bool {
        false
    }

    fn version(&self) -> (v: u32) {
        39
    }

    fn description(&self) -> (d: &'static str) {
        "Move message_delivery_status into per-account database"
    }

    fn for_new_accounts_only(&self) -> (b: bool) {
        false
    }
}

/// A row of the `message_delivery_status` table.
#[derive(Debug)]
pub struct DeliveryStatusRow {
    pub message_id: String,
    pub mls_group_id: Vec<u8>,
    pub account_pubkey: String,
    pub status: String,
}

/// What identifies a message of the account's own database.
#[derive(Debug)]
pub struct MessageKey {
    pub message_id: String,
    pub mls_group_id: Vec<u8>,
}

impl Row for DeliveryStatusRow {
    open spec fn clashes(&self, other: &Self) -> bool {
        &&& self.message_id@ == other.message_id@
        &&& self.mls_group_id@ == other.mls_group_id@
        &&& self.account_pubkey@ == other.account_pubkey@
    }

    open spec fn admissible(&self) -> bool {
        true
    }

    fn clashes_with(&self, other: &Self) -> (r: bool) {
        self.message_id == other.message_id && same_bytes(&self.mls_group_id, &other.mls_group_id)
            && self.account_pubkey == other.account_pubkey
    }

    fn is_admissible(&self) -> (r: bool) {
        true
    }
}

impl DeliveryStatusRow {
    /// Whether the message that the row is about is among `messages`.
    pub open spec fn has_parent(self, messages: Seq<MessageKey>) -> bool {
        exists|i: int|
            0 <= i < messages.len() && (#[trigger] messages[i]).message_id@ == self.message_id@
                && messages[i].mls_group_id@ == self.mls_group_id@
    }
}

/// The account's rows whose message is in its own database, in order.
pub open spec fn rows_with_parent(
    shared: Seq<DeliveryStatusRow>,
    account: Seq<char>,
    messages: Seq<MessageKey>,
) -> Seq<DeliveryStatusRow>
    decreases shared.len(),
{
    if shared.len() == 0 {
        Seq::empty()
    } else {
        let rest = rows_with_parent(shared.drop_last(), account, messages);
        if shared.last().account_pubkey@ == account && shared.last().has_parent(messages) {
            rest.push(shared.last())
        } else {
            rest
        }
    }
}

/// The rows of a table that may be missing.
pub open spec fn shared_rows(shared: Option<Vec<DeliveryStatusRow>>) -> Seq<DeliveryStatusRow> {
    match shared {
        Some(rows) => rows@,
        None => Seq::empty(),
    }
}

fn find_parent(row: &DeliveryStatusRow, messages: &Vec<MessageKey>) -> (found: bool)
    ensures
        found == row.has_parent(messages@),
{
    let mut i: usize = 0;
    while i < messages.len()
        invariant
            i <= messages.len(),
            forall|k: int|
                0 <= k < i ==> !((#[trigger] messages[k]).message_id@ == row.message_id@
                    && messages[k].mls_group_id@ == row.mls_group_id@),
        decreases messages.len() - i,
    {
        if messages[i].message_id == row.message_id && same_bytes(
            &messages[i].mls_group_id,
            &row.mls_group_id,
        ) {
            return true;
        }
        i = i + 1;
    }
    false
}

impl Migration {
    /// Copies the account's rows out of the shared table, where it still
    /// exists. A row whose message is not in the account's own database is
    /// left behind. Returns how many rows had their message.
    pub fn run_local(
        &self,
        shared: Option<Vec<DeliveryStatusRow>>,
        account_pubkey: &str,
        messages: &Vec<MessageKey>,
        local: &mut Vec<DeliveryStatusRow>,
    ) -> (inserted: usize)
        ensures
            final(local)@ == insert_all(
                old(local)@,
                rows_with_parent(shared_rows(shared), account_pubkey@, messages@),
            ),
            inserted == rows_with_parent(shared_rows(shared), account_pubkey@, messages@).len(),
    {
        let rows = match shared {
            Some(rows) => rows,
            None => {
                return 0;
            },
        };
        let mut mine: Vec<DeliveryStatusRow> = Vec::new();
        let ghost all = rows@;
        assert(all.take(0) =~= Seq::empty());
        for row in it: rows
            invariant
                it.seq() == all,
                mine@ == rows_with_parent(all.take(it.index()), account_pubkey@, messages@),
        {
            assert(all.take(it.index() + 1).drop_last() =~= all.take(it.index()));
            if same_text(row.account_pubkey.as_str(), account_pubkey) && find_parent(&row, messages) {
                mine.push(row);
            }
        }
        assert(all.take(all.len() as int) =~= all);
        let inserted: usize = mine.len();
        try_insert_all(local, mine);
        inserted
    }
}

} // verus!
