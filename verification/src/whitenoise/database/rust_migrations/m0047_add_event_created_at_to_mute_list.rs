//! Gives each mute list entry the time of the event that it comes from.
//!
//! The time at which an entry was inserted differs between devices; the time of
//! the event does not. For entries that are there already the former is the best
//! that is known of the latter.

use vstd::prelude::*;

use crate::whitenoise::database::rust_migrations::migration::LocalMigration;

verus! {

pub struct Migration;

impl LocalMigration for Migration {
    open spec fn spec_version(&self) -> u32 {
        47
    }

    open spec fn spec_description(&self) -> Seq<char> {
        "Add event_created_at to mute_list for cross-device backfill"@
    }

    open spec fn spec_for_new_accounts_only(&self) -> bool {
        false
    }

    fn version(&self) -> (v: u32) {
        47
    }

    fn description(&self) -> (d: &'static str) {
        "Add event_created_at to mute_list for cross-device backfill"
    }

    fn for_new_accounts_only(&self) -> (b: bool) {
        false
    }
}

/// A mute list entry before the migration.
#[derive(Debug)]
pub struct UntimedMute {
    pub id: i64,
    pub muted_pubkey: String,
    pub is_private: i64,
    pub created_at: i64,
}

/// A mute list entry after the migration.
#[derive(Debug)]
pub struct TimedMute {
    pub id: i64,
    pub muted_pubkey: String,
    pub is_private: i64,
    pub created_at: i64,
    pub event_created_at: i64,
}

impl UntimedMute {
    pub open spec fn timed(self) -> TimedMute {
        TimedMute {
            id: self.id,
            muted_pubkey: self.muted_pubkey,
            is_private: self.is_private,
            created_at: self.created_at,
            event_created_at: self.created_at,
        }
    }
}

impl Migration {
    /// The entries with their times; none where the table has the column
    /// already and there is nothing to do.
    pub fn run_local(&self, column_exists: bool, rows: Vec<UntimedMute>) -> (timed: Option<Vec<TimedMute>>)
        ensures
            timed is None <==> column_exists,
            timed matches Some(t) ==> t@ == rows@.map_values(|r: UntimedMute| r.timed()),
            timed matches Some(t) ==> t@.len() == rows@.len() && forall|i: int|
                0 <= i < rows@.len() ==> {
                    &&& (#[trigger] t@[i]).id == rows@[i].id
                    &&& t@[i].muted_pubkey == rows@[i].muted_pubkey
                    &&& t@[i].is_private == rows@[i].is_private
                    &&& t@[i].created_at == rows@[i].created_at
                    &&& t@[i].event_created_at == rows@[i].created_at
                },
    {
        if column_exists {
            return None;
        }
        let mut timed: Vec<TimedMute> = Vec::new();
        let ghost all = rows@;
        for row in it: rows
            invariant
                it.seq() == all,
                timed.len() == it.index(),
                forall|i: int| 0 <= i < it.index() ==> #[trigger] timed[i] == all[i].timed(),
        {
            timed.push(
                TimedMute {
                    id: row.id,
                    muted_pubkey: row.muted_pubkey,
                    is_private: row.is_private,
                    created_at: row.created_at,
                    event_created_at: row.created_at,
                },
            );
        }
        assert(timed@ =~= all.map_values(|r: UntimedMute| r.timed()));
        Some(timed)
    }
}

/// An entry keeps its columns, and its event counts as of the time at which
/// the entry was made.
pub proof fn an_entry_keeps_its_columns(entry: UntimedMute)
    ensures
        entry.timed().id == entry.id,
        entry.timed().muted_pubkey == entry.muted_pubkey,
        entry.timed().is_private == entry.is_private,
        entry.timed().created_at == entry.created_at,
        entry.timed().event_created_at == entry.created_at,
{
}

} // verus!
