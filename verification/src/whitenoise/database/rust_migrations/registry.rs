//! The registered migrations.

use vstd::prelude::*;

use super::global::m0001_bridge;
use super::global::m0005_group_push_tokens_member_identity;
use super::migration::{global_slot, local_slot};
use super::timeline::{
    registered, versions_rise, versions_unique, GlobalSlot, LocalSlot, Migrator, TimelineEntry,
};

verus! {

/// The versions of the global migrations, in order.
pub open spec fn global_versions() -> Seq<u32> {
    seq![
        1u32, 2, 3, 4, 5, 6, 7, 8, 9, 10, 11, 13, 14, 15, 16, 23, 24, 25, 26, 27, 28, 30, 33, 35, 37,
    ]
}

/// The versions of the local migrations, in order.
pub open spec fn local_versions() -> Seq<u32> {
    seq![17u32, 18, 19, 20, 21, 22, 29, 31, 32, 34, 36]
}

/// All global migrations, in version order.
pub fn all_global_migrations() -> (slots: Vec<GlobalSlot>)
    ensures
        slots@.map_values(|s: GlobalSlot| s.version) == global_versions(),
        forall|i: int, j: int|
            0 <= i < j < slots.len() ==> (#[trigger] slots[i]).version < (#[trigger] slots[j]).version,
{
    let mut slots: Vec<GlobalSlot> = Vec::new();
    slots.push(global_slot(&m0001_bridge::Migration));
    slots.push(global_slot(&super::m0002_add_removed_at::Migration));
    // 3: push notification tables.
    slots.push(GlobalSlot { version: 3 });
    slots.push(global_slot(&super::m0004_add_muted_until::Migration));
    slots.push(global_slot(&m0005_group_push_tokens_member_identity::Migration));
    slots.push(global_slot(&super::m0006_add_self_removed::Migration));
    slots.push(global_slot(&super::m0007_search_position_index::Migration));
    // 8: the time at which a chat was cleared.
    slots.push(GlobalSlot { version: 8 });
    slots.push(global_slot(&super::m0009_mute_list::Migration));
    slots.push(global_slot(&super::m0010_published_kp_kind_metadata::Migration));
    slots.push(global_slot(&super::m0011_delivery_status_account_scope::Migration));
    slots.push(global_slot(&super::m0013_media_blob_reference_split::Migration));
    slots.push(global_slot(&super::m0014_drop_media_files::Migration));
    slots.push(global_slot(&super::m0015_published_events_pubkey_fk::Migration));
    // 16: processed events keyed by public key.
    slots.push(GlobalSlot { version: 16 });
    slots.push(global_slot(&super::m0023_drop_shared_account_settings::Migration));
    // 24 to 27: shared tables whose rows have moved are dropped.
    slots.push(GlobalSlot { version: 24 });
    slots.push(GlobalSlot { version: 25 });
    slots.push(GlobalSlot { version: 26 });
    slots.push(GlobalSlot { version: 27 });
    slots.push(global_slot(&super::m0028_purge_account_processed_events::Migration));
    // 30, 33 and 35: more of them.
    slots.push(GlobalSlot { version: 30 });
    slots.push(GlobalSlot { version: 33 });
    slots.push(GlobalSlot { version: 35 });
    slots.push(global_slot(&super::m0037_drop_shared_accounts_groups::Migration));
    let ghost versions = slots@.map_values(|s: GlobalSlot| s.version);
    assert(versions =~= global_versions());
    assert forall|i: int, j: int| 0 <= i < j < slots.len() implies (#[trigger] slots[i]).version < (
    #[trigger] slots[j]).version by {
        assert(slots[i].version == versions[i] && slots[j].version == versions[j]);
    }
    slots
}

/// All local migrations, in version order. Only the bootstrap, version 31, is
/// for new accounts only.
pub fn all_local_migrations() -> (slots: Vec<LocalSlot>)
    ensures
        slots@.map_values(|s: LocalSlot| s.version) == local_versions(),
        forall|i: int|
            0 <= i < slots.len() ==> ((#[trigger] slots[i]).for_new_accounts_only
                <==> slots[i].version == 31),
        forall|i: int, j: int|
            0 <= i < j < slots.len() ==> (#[trigger] slots[i]).version < (#[trigger] slots[j]).version,
{
    let mut slots: Vec<LocalSlot> = Vec::new();
    // 17 to 21: the first tables that move into the account databases.
    slots.push(LocalSlot { version: 17, for_new_accounts_only: false });
    slots.push(LocalSlot { version: 18, for_new_accounts_only: false });
    slots.push(LocalSlot { version: 19, for_new_accounts_only: false });
    slots.push(LocalSlot { version: 20, for_new_accounts_only: false });
    slots.push(LocalSlot { version: 21, for_new_accounts_only: false });
    slots.push(local_slot(&super::m0022_move_account_follows::Migration));
    slots.push(local_slot(&super::m0029_move_media_references::Migration));
    // 31: the bootstrap claims the slot after the globals that it follows.
    slots.push(local_slot(&super::m0012_bootstrap::Migration));
    slots.push(local_slot(&super::m0032_move_push_registrations::Migration));
    slots.push(local_slot(&super::m0034_move_group_push_tokens::Migration));
    slots.push(local_slot(&super::m0036_move_accounts_groups::Migration));
    let ghost versions = slots@.map_values(|s: LocalSlot| s.version);
    assert(versions =~= local_versions());
    assert forall|i: int, j: int| 0 <= i < j < slots.len() implies (#[trigger] slots[i]).version < (
    #[trigger] slots[j]).version by {
        assert(slots[i].version == versions[i] && slots[j].version == versions[j]);
    }
    slots
}

/// No two registered migrations claim one version.
pub proof fn registered_versions_are_unique(globals: Seq<GlobalSlot>, locals: Seq<LocalSlot>)
    requires
        globals.map_values(|s: GlobalSlot| s.version) == global_versions(),
        locals.map_values(|s: LocalSlot| s.version) == local_versions(),
    ensures
        versions_unique(registered(globals, locals)),
{
    let gv = globals.map_values(|s: GlobalSlot| s.version);
    let lv = locals.map_values(|s: LocalSlot| s.version);
    let all = registered(globals, locals);
    let versions = global_versions() + local_versions();
    assert(globals.len() == 25 && locals.len() == 11) by {
        assert(gv.len() == globals.len());
        assert(lv.len() == locals.len());
    }
    assert forall|i: int| 0 <= i < all.len() implies (#[trigger] all[i]).spec_version()
        == versions[i] by {
        if i < 25 {
            assert(gv[i] == globals[i].version);
        } else {
            assert(lv[i - 25] == locals[i - 25].version);
        }
    }
    assert forall|i: int, j: int| 0 <= i < j < all.len() implies all[i].spec_version()
        != all[j].spec_version() by {
        assert(all[i].spec_version() == versions[i]);
        assert(all[j].spec_version() == versions[j]);
        assert(versions[i] != versions[j]);
    }
}

/// The timeline of the registered migrations.
pub fn migrator() -> (m: Migrator)
    ensures
        versions_rise(m@),
        forall|slot: GlobalSlot| #[trigger]
            m@.contains(TimelineEntry::Global(slot)) <==> global_versions().contains(slot.version),
        forall|slot: LocalSlot| #[trigger]
            m@.contains(TimelineEntry::Local(slot)) <==> local_versions().contains(slot.version) && (
            slot.for_new_accounts_only <==> slot.version == 31),
{
    let globals = all_global_migrations();
    let locals = all_local_migrations();
    proof {
        registered_versions_are_unique(globals@, locals@);
        let gv = globals@.map_values(|s: GlobalSlot| s.version);
        let lv = locals@.map_values(|s: LocalSlot| s.version);
        let all = registered(globals@, locals@);
        assert(gv.len() == globals.len());
        assert(lv.len() == locals.len());
        assert forall|slot: GlobalSlot| #[trigger]
            all.contains(TimelineEntry::Global(slot)) <==> global_versions().contains(slot.version) by {
            if all.contains(TimelineEntry::Global(slot)) {
                let i = choose|i: int| 0 <= i < all.len() && all[i] == TimelineEntry::Global(slot);
                assert(i < globals.len());
                assert(gv[i] == slot.version);
            }
            if gv.contains(slot.version) {
                let i = choose|i: int| 0 <= i < gv.len() && gv[i] == slot.version;
                assert(globals@[i] == slot);
                assert(all[i] == TimelineEntry::Global(slot));
            }
        }
        assert forall|slot: LocalSlot| #[trigger]
            all.contains(TimelineEntry::Local(slot)) <==> local_versions().contains(slot.version) && (
        slot.for_new_accounts_only <==> slot.version == 31) by {
            let n = globals.len() as int;
            if all.contains(TimelineEntry::Local(slot)) {
                let i = choose|i: int| 0 <= i < all.len() && all[i] == TimelineEntry::Local(slot);
                assert(i >= n);
                assert(locals@[i - n] == slot);
                assert(lv[i - n] == slot.version);
            }
            if lv.contains(slot.version) && (slot.for_new_accounts_only <==> slot.version == 31) {
                let i = choose|i: int| 0 <= i < lv.len() && lv[i] == slot.version;
                assert(locals@[i].version == slot.version);
                assert(locals@[i] == slot);
                assert(all[n + i] == TimelineEntry::Local(slot));
            }
        }
    }
    Migrator::new(globals, locals)
}

} // verus!
