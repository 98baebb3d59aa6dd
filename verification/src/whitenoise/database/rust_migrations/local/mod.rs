//! The first release of the migration framework had no local migrations.

use vstd::prelude::*;

use super::timeline::LocalSlot;

verus! {

pub fn all_local_migrations() -> (slots: Vec<LocalSlot>)
    ensures
        slots.len() == 0,
{
    Vec::new()
}

} // verus!
