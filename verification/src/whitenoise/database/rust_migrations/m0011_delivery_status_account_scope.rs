//! Scopes delivery status to accounts: what is on record is credited to the
//! message's author.

use vstd::prelude::*;

use crate::whitenoise::database::rust_migrations::migration::GlobalMigration;
use crate::whitenoise::text::same_bytes;

verus! {

pub struct Migration;

impl GlobalMigration for Migration {
    open spec fn spec_version(&self) -> u32 {
        11
    }

    open spec fn spec_description(&self) -> Seq<char> {
        "Add account_pubkey to delivery status primary key"@
    }

    fn version(&self) -> (v: u32) {
        11
    }

    fn description(&self) -> (d: &'static str) {
        "Add account_pubkey to delivery status primary key"
    }
}

/// A delivery status before the migration.
#[derive(Debug)]
pub struct DeliveryStatusRow {
    pub message_id: String,
    pub mls_group_id: Vec<u8>,
    pub status: String,
}

/// The author of a message.
#[derive(Debug)]
pub struct AuthoredMessage {
    pub message_id: String,
    pub mls_group_id: Vec<u8>,
    pub author: String,
}

/// A delivery status after the migration.
#[derive(Debug)]
pub struct ScopedDeliveryStatus {
    pub message_id: String,
    pub mls_group_id: Vec<u8>,
    pub account_pubkey: String,
    pub status: String,
}

impl AuthoredMessage {
    /// Whether `row` is about this message.
    pub open spec fn is_of(self, row: DeliveryStatusRow) -> bool {
        self.message_id@ == row.message_id@ && self.mls_group_id@ == row.mls_group_id@
    }
}

/// `at` is the position of the message that `row` is about.
pub open spec fn message_at(messages: Seq<AuthoredMessage>, row: DeliveryStatusRow, at: int) -> bool {
    0 <= at < messages.len() && messages[at].is_of(row) && forall|i: int|
        0 <= i < at ==> !(#[trigger] messages[i]).is_of(row)
}

/// The row credited to the author of its message, where that message is known.
pub open spec fn credited(messages: Seq<AuthoredMessage>, row: DeliveryStatusRow) -> Option<
    ScopedDeliveryStatus,
> {
    if exists|at: int| message_at(messages, row, at) {
        Some(
            ScopedDeliveryStatus {
                message_id: row.message_id,
                mls_group_id: row.mls_group_id,
                account_pubkey: messages[choose|at: int| message_at(messages, row, at)].author,
                status: row.status,
            },
        )
    } else {
        None
    }
}

/// All rows that can be credited, in order.
pub open spec fn all_credited(messages: Seq<AuthoredMessage>, rows: Seq<DeliveryStatusRow>) -> Seq<
    ScopedDeliveryStatus,
>
    decreases rows.len(),
{
    if rows.len() == 0 {
        Seq::empty()
    } else {
        let rest = all_credited(messages, rows.drop_last());
        match credited(messages, rows.last()) {
            Some(row) => rest.push(row),
            None => rest,
        }
    }
}

impl Migration {
    /// Credits each delivery status to its message's author. A status of an
    /// unknown message is dropped.
    pub fn run_global(&self, rows: Vec<DeliveryStatusRow>, messages: &Vec<AuthoredMessage>) -> (scoped:
        Vec<ScopedDeliveryStatus>)
        ensures
            scoped@ == all_credited(messages@, rows@),
    {
        let mut scoped: Vec<ScopedDeliveryStatus> = Vec::new();
        let ghost all = rows@;
        assert(all.take(0) =~= Seq::empty());
        for row in it: rows
            invariant
                it.seq() == all,
                scoped@ == all_credited(messages@, all.take(it.index())),
        {
            assert(all.take(it.index() + 1).drop_last() =~= all.take(it.index()));
            if let Some(author) = find_author(messages, &row) {
                scoped.push(
                    ScopedDeliveryStatus {
                        message_id: row.message_id,
                        mls_group_id: row.mls_group_id,
                        account_pubkey: author,
                        status: row.status,
                    },
                );
            }
        }
        assert(all.take(all.len() as int) =~= all);
        scoped
    }
}

fn find_author(messages: &Vec<AuthoredMessage>, row: &DeliveryStatusRow) -> (author: Option<String>)
    ensures
        author is Some <==> credited(messages@, *row) is Some,
        author matches Some(a) ==> credited(messages@, *row)->0.account_pubkey == a,
{
    let mut i: usize = 0;
    while i < messages.len()
        invariant
            i <= messages.len(),
            forall|k: int| 0 <= k < i ==> !(#[trigger] messages[k]).is_of(*row),
        decreases messages.len() - i,
    {
        if messages[i].message_id == row.message_id && same_bytes(
            &messages[i].mls_group_id,
            &row.mls_group_id,
        ) {
            proof {
                assert(message_at(messages@, *row, i as int));
                let at = choose|at: int| message_at(messages@, *row, at);
                assert(message_at(messages@, *row, at));
                assert(at == i) by {
                    if at < i {
                        assert(!messages@[at].is_of(*row));
                    } else if i < at {
                        assert(!messages@[i as int].is_of(*row));
                    }
                }
            }
            return Some(messages[i].author.clone());
        }
        i = i + 1;
    }
    assert(forall|at: int| !message_at(messages@, *row, at));
    None
}

/// A status is credited to the author of the first message with its message
/// and group, and keeps its columns. A status without such a message is
/// dropped, and the order of the others stays.
pub proof fn a_status_is_credited_to_its_author(
    messages: Seq<AuthoredMessage>,
    rows: Seq<DeliveryStatusRow>,
    row: DeliveryStatusRow,
    at: int,
)
    ensures
        all_credited(messages, Seq::empty()) == Seq::<ScopedDeliveryStatus>::empty(),
        0 <= at < messages.len() && messages[at].message_id@ == row.message_id@
            && messages[at].mls_group_id@ == row.mls_group_id@ && (forall|i: int|
            0 <= i < at ==> (#[trigger] messages[i]).message_id@ != row.message_id@
                || messages[i].mls_group_id@ != row.mls_group_id@) ==> {
            let before = all_credited(messages, rows);
            let after = all_credited(messages, rows.push(row));
            &&& after.len() == before.len() + 1
            &&& forall|i: int| 0 <= i < before.len() ==> #[trigger] after[i] == before[i]
            &&& after.last().message_id == row.message_id && after.last().mls_group_id == row.mls_group_id
                && after.last().status == row.status && after.last().account_pubkey == messages[at].author
        },
        (forall|i: int|
            0 <= i < messages.len() ==> (#[trigger] messages[i]).message_id@ != row.message_id@
                || messages[i].mls_group_id@ != row.mls_group_id@) ==> all_credited(
            messages,
            rows.push(row),
        ) == all_credited(messages, rows),
{
    assert(rows.push(row).drop_last() =~= rows);
    if message_at(messages, row, at) {
        let found = choose|k: int| message_at(messages, row, k);
        assert(message_at(messages, row, found));
        if found < at {
            assert(!messages[found].is_of(row));
        } else if at < found {
            assert(!messages[at].is_of(row));
        }
    }
}

} // verus!
