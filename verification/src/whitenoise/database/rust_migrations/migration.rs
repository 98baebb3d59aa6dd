//! What every migration says of itself.

use vstd::prelude::*;

use super::timeline::{GlobalSlot, LocalSlot};

verus! {

/// A migration of the shared, cross-account database.
pub trait GlobalMigration {
    spec fn spec_version(&self) -> u32;

    spec fn spec_description(&self) -> Seq<char>;

    /// Unique version number across the whole migration timeline.
    fn version(&self) -> (v: u32)
        ensures
            v == self.spec_version(),
    ;

    /// Human-readable description for logging and the tracking table.
    fn description(&self) -> (d: &'static str)
        ensures
            d@ == self.spec_description(),
    ;
}

/// A migration of a per-account database, with read access to the shared one.
pub trait LocalMigration {
    spec fn spec_version(&self) -> u32;

    spec fn spec_description(&self) -> Seq<char>;

    spec fn spec_for_new_accounts_only(&self) -> bool;

    /// Unique version number across the whole migration timeline.
    fn version(&self) -> (v: u32)
        ensures
            v == self.spec_version(),
    ;

    /// Human-readable description for logging and the tracking table.
    fn description(&self) -> (d: &'static str)
        ensures
            d@ == self.spec_description(),
    ;

    /// Whether the migration concerns only accounts on which no local
    /// migration has run yet.
    fn for_new_accounts_only(&self) -> (b: bool)
        ensures
            b == self.spec_for_new_accounts_only(),
    ;
}

/// The place that a global migration takes on the timeline.
pub fn global_slot<M: GlobalMigration>(migration: &M) -> (slot: GlobalSlot)
    ensures
        slot == (GlobalSlot { version: migration.spec_version() }),
{
    GlobalSlot { version: migration.version() }
}

/// The place that a local migration takes on the timeline.
pub fn local_slot<M: LocalMigration>(migration: &M) -> (slot: LocalSlot)
    ensures
        slot == (LocalSlot {
            version: migration.spec_version(),
            for_new_accounts_only: migration.spec_for_new_accounts_only(),
        }),
{
    LocalSlot {
        version: migration.version(),
        for_new_accounts_only: migration.for_new_accounts_only(),
    }
}

} // verus!
