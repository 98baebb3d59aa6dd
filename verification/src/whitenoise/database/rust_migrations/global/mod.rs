//! The first release of the migration framework: globals only.

use vstd::prelude::*;

use super::migration::global_slot;
use super::timeline::GlobalSlot;

pub mod m0001_bridge;
pub mod m0005_group_push_tokens_member_identity;

verus! {

/// The global migrations up to the one that scopes delivery status to accounts.
pub fn all_global_migrations() -> (slots: Vec<GlobalSlot>)
    ensures
        slots.len() == 11,
        forall|i: int| 0 <= i < 11 ==> (#[trigger] slots[i]).version == i + 1,
{
    let mut slots: Vec<GlobalSlot> = Vec::new();
    slots.push(global_slot(&m0001_bridge::Migration));
    slots.push(global_slot(&super::m0002_add_removed_at::Migration));
    slots.push(GlobalSlot { version: 3 });
    slots.push(global_slot(&super::m0004_add_muted_until::Migration));
    slots.push(global_slot(&m0005_group_push_tokens_member_identity::Migration));
    slots.push(global_slot(&super::m0006_add_self_removed::Migration));
    slots.push(global_slot(&super::m0007_search_position_index::Migration));
    slots.push(GlobalSlot { version: 8 });
    slots.push(global_slot(&super::m0009_mute_list::Migration));
    slots.push(global_slot(&super::m0010_published_kp_kind_metadata::Migration));
    slots.push(global_slot(&super::m0011_delivery_status_account_scope::Migration));
    slots
}

} // verus!
