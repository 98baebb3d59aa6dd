//! Processed events refer to accounts by public key instead of by number.

use vstd::prelude::*;

use crate::whitenoise::database::rust_migrations::migration::GlobalMigration;
use crate::whitenoise::database::rust_migrations::table::{find_key, key_numbered, NumberedKey};
use crate::whitenoise::database::rust_migrations::table_laws::the_first_entry_names_a_key;

verus! {

pub struct Migration;

impl GlobalMigration for Migration {
    open spec fn spec_version(&self) -> u32 {
        14
    }

    open spec fn spec_description(&self) -> Seq<char> {
        "Switch processed_events.account_id (int FK, nullable) to account_pubkey (text FK)"@
    }

    fn version(&self) -> (v: u32) {
        14
    }

    fn description(&self) -> (d: &'static str) {
        "Switch processed_events.account_id (int FK, nullable) to account_pubkey (text FK)"
    }
}

/// A processed event before the migration.
#[derive(Debug)]
pub struct NumberedProcessedEvent {
    pub id: i64,
    pub event_id: String,
    pub account_id: Option<i64>,
    pub created_at: String,
    pub event_created_at: Option<i64>,
    pub event_kind: Option<i64>,
    pub author: Option<String>,
}

/// A processed event after the migration.
#[derive(Debug)]
pub struct ProcessedEvent {
    pub id: i64,
    pub event_id: String,
    pub account_pubkey: Option<String>,
    pub created_at: String,
    pub event_created_at: Option<i64>,
    pub event_kind: Option<i64>,
    pub author: Option<String>,
}

impl NumberedProcessedEvent {
    /// The event with its account's public key. It has none where the event
    /// belongs to no account, or to one that is gone.
    pub open spec fn keyed(self, accounts: Seq<NumberedKey>) -> ProcessedEvent {
        ProcessedEvent {
            id: self.id,
            event_id: self.event_id,
            account_pubkey: match self.account_id {
                Some(id) => key_numbered(accounts, id),
                None => None,
            },
            created_at: self.created_at,
            event_created_at: self.event_created_at,
            event_kind: self.event_kind,
            author: self.author,
        }
    }
}

impl Migration {
    /// Every row is kept.
    pub fn run_global(&self, rows: Vec<NumberedProcessedEvent>, accounts: &Vec<NumberedKey>) -> (keyed:
        Vec<ProcessedEvent>)
        ensures
            keyed@ == rows@.map_values(|r: NumberedProcessedEvent| r.keyed(accounts@)),
            keyed@.len() == rows@.len(),
            forall|i: int|
                0 <= i < rows@.len() ==> {
                    &&& (#[trigger] keyed@[i]).id == rows@[i].id
                    &&& keyed@[i].event_id == rows@[i].event_id
                    &&& keyed@[i].created_at == rows@[i].created_at
                    &&& keyed@[i].event_created_at == rows@[i].event_created_at
                    &&& keyed@[i].event_kind == rows@[i].event_kind
                    &&& keyed@[i].author == rows@[i].author
                },
    {
        let mut keyed: Vec<ProcessedEvent> = Vec::new();
        let ghost all = rows@;
        for row in it: rows
            invariant
                it.seq() == all,
                keyed.len() == it.index(),
                forall|i: int| 0 <= i < it.index() ==> #[trigger] keyed[i] == all[i].keyed(accounts@),
        {
            let account_pubkey = match row.account_id {
                Some(id) => find_key(accounts, id),
                None => None,
            };
            keyed.push(
                ProcessedEvent {
                    id: row.id,
                    event_id: row.event_id,
                    account_pubkey,
                    created_at: row.created_at,
                    event_created_at: row.event_created_at,
                    event_kind: row.event_kind,
                    author: row.author,
                },
            );
        }
        assert(keyed@ =~= all.map_values(|r: NumberedProcessedEvent| r.keyed(accounts@)));
        keyed
    }
}

/// An event keeps all its columns but the number of its account, in place of
/// which it has the key of the first account with that number. It has no key
/// where it has no number, or one that no account has.
pub proof fn an_event_gets_the_key_of_its_account(
    event: NumberedProcessedEvent,
    accounts: Seq<NumberedKey>,
    a: int,
)
    ensures
        ({
            let keyed = event.keyed(accounts);
            &&& keyed.id == event.id && keyed.event_id == event.event_id && keyed.created_at
                == event.created_at
            &&& keyed.event_created_at == event.event_created_at && keyed.event_kind == event.event_kind
                && keyed.author == event.author
            &&& event.account_id is None ==> keyed.account_pubkey is None
            &&& event.account_id is Some && 0 <= a < accounts.len() && accounts[a].id
                == event.account_id->0 && (forall|b: int|
                0 <= b < a ==> (#[trigger] accounts[b]).id != event.account_id->0)
                ==> keyed.account_pubkey == Some(accounts[a].pubkey)
            &&& event.account_id is Some && (forall|b: int|
                0 <= b < accounts.len() ==> (#[trigger] accounts[b]).id != event.account_id->0)
                ==> keyed.account_pubkey is None
        }),
{
    if event.account_id is Some {
        the_first_entry_names_a_key(accounts, event.account_id->0, Seq::empty(), a);
    }
}

} // verus!
