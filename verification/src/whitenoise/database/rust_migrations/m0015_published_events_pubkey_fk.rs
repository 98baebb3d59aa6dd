//! Published events refer to accounts by public key instead of by number.

use vstd::prelude::*;

use crate::whitenoise::database::rust_migrations::migration::GlobalMigration;
use crate::whitenoise::database::rust_migrations::table::{find_key, key_numbered, NumberedKey};
use crate::whitenoise::database::rust_migrations::table_laws::the_first_entry_names_a_key;

verus! {

pub struct Migration;

impl GlobalMigration for Migration {
    open spec fn spec_version(&self) -> u32 {
        15
    }

    open spec fn spec_description(&self) -> Seq<char> {
        "Switch published_events.account_id (int FK) to account_pubkey (text FK)"@
    }

    fn version(&self) -> (v: u32) {
        15
    }

    fn description(&self) -> (d: &'static str) {
        "Switch published_events.account_id (int FK) to account_pubkey (text FK)"
    }
}

/// A published event before the migration.
#[derive(Debug)]
pub struct NumberedPublishedEvent {
    pub id: i64,
    pub event_id: String,
    pub account_id: i64,
    pub created_at: String,
}

/// A published event after the migration.
#[derive(Debug)]
pub struct PublishedEvent {
    pub id: i64,
    pub event_id: String,
    pub account_pubkey: String,
    pub created_at: String,
}

/// The events with their accounts' public keys, without those whose account is gone.
pub open spec fn keyed(rows: Seq<NumberedPublishedEvent>, accounts: Seq<NumberedKey>) -> Seq<
    PublishedEvent,
>
    decreases rows.len(),
{
    if rows.len() == 0 {
        Seq::empty()
    } else {
        let rest = keyed(rows.drop_last(), accounts);
        let row = rows.last();
        match key_numbered(accounts, row.account_id) {
            Some(account_pubkey) => rest.push(
                PublishedEvent {
                    id: row.id,
                    event_id: row.event_id,
                    account_pubkey,
                    created_at: row.created_at,
                },
            ),
            None => rest,
        }
    }
}

impl Migration {
    /// Returns the rows to keep and how many were dropped as orphans.
    pub fn run_global(&self, rows: Vec<NumberedPublishedEvent>, accounts: &Vec<NumberedKey>) -> (result:
        (Vec<PublishedEvent>, usize))
        ensures
            result.0@ == keyed(rows@, accounts@),
            result.1 == rows.len() - keyed(rows@, accounts@).len(),
    {
        let mut kept: Vec<PublishedEvent> = Vec::new();
        let mut dropped: usize = 0;
        let ghost all = rows@;
        assert(all.take(0) =~= Seq::empty());
        let total: usize = rows.len();
        for row in it: rows
            invariant
                it.seq() == all,
                all.len() == total,
                kept@ == keyed(all.take(it.index()), accounts@),
                dropped == it.index() - kept.len(),
        {
            assert(all.take(it.index() + 1).drop_last() =~= all.take(it.index()));
            match find_key(accounts, row.account_id) {
                Some(account_pubkey) => {
                    kept.push(
                        PublishedEvent {
                            id: row.id,
                            event_id: row.event_id,
                            account_pubkey,
                            created_at: row.created_at,
                        },
                    );
                },
                None => {
                    dropped = dropped + 1;
                },
            }
        }
        assert(all.take(all.len() as int) =~= all);
        (kept, dropped)
    }
}

/// An event is kept exactly if its account has an entry: it keeps its columns
/// and has the key of the first entry with its account's number. The order
/// stays.
pub proof fn an_event_stays_with_its_account(
    rows: Seq<NumberedPublishedEvent>,
    event: NumberedPublishedEvent,
    accounts: Seq<NumberedKey>,
    a: int,
)
    ensures
        keyed(Seq::empty(), accounts) == Seq::<PublishedEvent>::empty(),
        0 <= a < accounts.len() && accounts[a].id == event.account_id && (forall|b: int|
            0 <= b < a ==> (#[trigger] accounts[b]).id != event.account_id) ==> {
            let before = keyed(rows, accounts);
            let after = keyed(rows.push(event), accounts);
            &&& after.len() == before.len() + 1
            &&& forall|i: int| 0 <= i < before.len() ==> #[trigger] after[i] == before[i]
            &&& after.last().id == event.id && after.last().event_id == event.event_id
                && after.last().created_at == event.created_at && after.last().account_pubkey
                == accounts[a].pubkey
        },
        (forall|b: int| 0 <= b < accounts.len() ==> (#[trigger] accounts[b]).id != event.account_id)
            ==> keyed(rows.push(event), accounts) == keyed(rows, accounts),
{
    assert(rows.push(event).drop_last() =~= rows);
    the_first_entry_names_a_key(accounts, event.account_id, Seq::empty(), a);
}

} // verus!
