//! What a run performs, how one migration is applied, and which migrations
//! there are, said of versions, accounts and tracking tables themselves.

use std::collections::HashSet;

use vstd::prelude::*;

use super::migration::{GlobalMigration, LocalMigration};
use super::registry::{global_versions, local_versions};
use super::timeline::{
    applied_views, first_duplicate, is_fresh, is_plan, local_due, local_versions_of, recorded_versions, registered,
    step_due, versions_rise, versions_unique,
    DuplicateVersion, GlobalSlot, LocalSlot, Step, Target, TimelineEntry,
};
use super::walk::{ApplyReply, ApplyStage, WalkState};
use crate::whitenoise::text::decimal;
use super::m0002_add_removed_at;
use super::m0004_add_muted_until;
use super::m0006_add_self_removed;
use super::m0007_search_position_index;
use super::m0009_mute_list;
use super::m0010_published_kp_kind_metadata;
use super::m0011_delivery_status_account_scope;
use super::m0012_bootstrap;
use super::m0013_media_blob_reference_split;
use super::m0014_drop_media_files;
use super::m0014_processed_events_pubkey_fk;
use super::m0015_move_account_settings;
use super::m0015_published_events_pubkey_fk;
use super::m0016_move_drafts;
use super::m0017_move_published_key_packages;
use super::m0018_move_published_events;
use super::m0019_move_processed_events;
use super::m0022_move_account_follows;
use super::m0023_drop_shared_account_settings;
use super::m0028_purge_account_processed_events;
use super::m0029_move_media_references;
use super::m0032_move_push_registrations;
use super::m0034_move_group_push_tokens;
use super::m0036_move_accounts_groups;
use super::m0037_drop_shared_accounts_groups;
use super::m0038_move_aggregated_messages;
use super::m0039_move_message_delivery_status;
use super::m0040_drop_shared_message_delivery_status;
use super::m0042_move_mute_list;
use super::m0043_drop_shared_mute_list;
use super::m0044_reparse_content_tokens;
use super::m0046_account_maintenance_tasks;
use super::m0047_add_event_created_at_to_mute_list;
use super::m0047_darkmatter_key_package_metadata;
use super::m0048_add_is_blocked_to_aggregated_messages;
use super::m0048_darkmatter_key_package_content_cache;
use super::m0049_marmot_message_projections;
use super::m0050_group_push_token_metadata;
use super::global::m0001_bridge;
use super::global::m0005_group_push_tokens_member_identity;

verus! {

// ---------------------------------------------------------------------------
// What a run performs
// ---------------------------------------------------------------------------

/// A run performs a global migration exactly if it is registered and the
/// shared tracking table does not record its version.
pub proof fn a_global_runs_exactly_if_it_is_not_recorded(
    steps: Seq<Step>,
    entries: Seq<TimelineEntry>,
    shared: Set<u32>,
    accounts: Seq<Set<u32>>,
    version: u32,
)
    requires
        is_plan(steps, entries, shared, accounts),
    ensures
        (exists|n: int|
            0 <= n < steps.len() && (#[trigger] steps[n]).version == version && steps[n].target
                == Target::Shared) <==> !shared.contains(version) && exists|i: int|
            0 <= i < entries.len() && (#[trigger] entries[i]) is Global
                && entries[i]->Global_0.version
                == version,
{
    let step = Step { version, target: Target::Shared };
    if exists|n: int|
        0 <= n < steps.len() && (#[trigger] steps[n]).version == version && steps[n].target
            == Target::Shared {
        let n = choose|n: int|
            0 <= n < steps.len() && (#[trigger] steps[n]).version == version && steps[n].target
                == Target::Shared;
        assert(steps[n] == step);
        assert(steps.contains(step));
        let i = choose|i: int|
            0 <= i < entries.len() && entries[i] == TimelineEntry::Global(GlobalSlot { version });
        assert(entries[i] is Global);
    }
    if !shared.contains(version) && exists|i: int|
        0 <= i < entries.len() && (#[trigger] entries[i]) is Global && entries[i]->Global_0.version
            == version {
        let i = choose|i: int|
            0 <= i < entries.len() && (#[trigger] entries[i]) is Global
                && entries[i]->Global_0.version
                == version;
        assert(entries[i] == TimelineEntry::Global(GlobalSlot { version }));
        assert(entries.contains(entries[i]));
        assert(steps.contains(step));
        let n = choose|n: int| 0 <= n < steps.len() && steps[n] == step;
        assert(steps[n].version == version);
    }
}

/// A run performs a local migration on an account exactly if it is registered,
/// the account's tracking table does not record its version, and, where it is
/// for new accounts only, that table records no local migration at all.
pub proof fn a_local_runs_exactly_if_it_is_not_recorded(
    steps: Seq<Step>,
    entries: Seq<TimelineEntry>,
    shared: Set<u32>,
    accounts: Seq<Set<u32>>,
    version: u32,
    account: usize,
)
    requires
        is_plan(steps, entries, shared, accounts),
    ensures
        (exists|n: int|
            0 <= n < steps.len() && (#[trigger] steps[n]).version == version && steps[n].target
                == Target::Account(account)) <==> account < accounts.len()
            && !accounts[account as int].contains(version) && exists|i: int|
            0 <= i < entries.len() && (#[trigger] entries[i]) is Local
                && entries[i]->Local_0.version
                == version && (entries[i]->Local_0.for_new_accounts_only ==> forall|j: int|
                0 <= j < entries.len() && (#[trigger] entries[j]) is Local
                    ==> !accounts[account as int].contains(entries[j]->Local_0.version)),
{
    let step = Step { version, target: Target::Account(account) };
    let applied = accounts[account as int];
    let fresh = forall|j: int|
        0 <= j < entries.len() && (#[trigger] entries[j]) is Local ==> !applied.contains(
            entries[j]->Local_0.version,
        );
    let locals = local_versions_of(entries);
    assert(is_fresh(applied, entries) <==> fresh) by {
        if fresh {
            assert forall|v: u32| !(#[trigger] applied.contains(v) && locals.contains(v)) by {
                if applied.contains(v) && locals.contains(v) {
                    let j = choose|j: int|
                        0 <= j < entries.len() && (#[trigger] entries[j]) is Local
                            && entries[j].spec_version() == v;
                    assert(!applied.contains(entries[j]->Local_0.version));
                }
            }
        }
        if is_fresh(applied, entries) {
            assert forall|j: int| 0 <= j < entries.len()
                && (#[trigger] entries[j]) is Local implies !applied.contains(
            entries[j]->Local_0.version) by {
                assert(entries[j].spec_version() == entries[j]->Local_0.version);
                assert(locals.contains(entries[j]->Local_0.version));
            }
        }
    }
    if exists|n: int|
        0 <= n < steps.len() && (#[trigger] steps[n]).version == version && steps[n].target
            == Target::Account(account) {
        let n = choose|n: int|
            0 <= n < steps.len() && (#[trigger] steps[n]).version == version && steps[n].target
                == Target::Account(account);
        assert(steps[n] == step);
        assert(steps.contains(step));
        let slot = choose|slot: LocalSlot|
            slot.version == version && #[trigger] entries.contains(TimelineEntry::Local(slot))
                && local_due(slot, applied, is_fresh(applied, entries));
        let i = choose|i: int| 0 <= i < entries.len() && entries[i] == TimelineEntry::Local(slot);
        assert(entries[i] is Local);
    }
    if account < accounts.len() && !applied.contains(version) && exists|i: int|
        0 <= i < entries.len() && (#[trigger] entries[i]) is Local && entries[i]->Local_0.version
            == version
            && (entries[i]->Local_0.for_new_accounts_only ==> fresh) {
        let i = choose|i: int|
            0 <= i < entries.len() && (#[trigger] entries[i]) is Local
                && entries[i]->Local_0.version
                == version && (entries[i]->Local_0.for_new_accounts_only ==> fresh);
        let slot = entries[i]->Local_0;
        assert(entries[i] == TimelineEntry::Local(slot));
        assert(entries.contains(TimelineEntry::Local(slot)));
        assert(local_due(slot, applied, is_fresh(applied, entries)));
        assert(step_due(entries, shared, accounts, step));
        assert(steps.contains(step));
        let n = choose|n: int| 0 <= n < steps.len() && steps[n] == step;
        assert(steps[n].version == version);
    }
}

/// Steps are performed by rising version, and one version on account after
/// account; no step is performed twice.
pub proof fn steps_run_by_version_and_account(
    steps: Seq<Step>,
    entries: Seq<TimelineEntry>,
    shared: Set<u32>,
    accounts: Seq<Set<u32>>,
    i: int,
    j: int,
)
    requires
        is_plan(steps, entries, shared, accounts),
        0 <= i < j < steps.len(),
    ensures
        steps[i].version <= steps[j].version,
        steps[i].version == steps[j].version ==> steps[i].target is Account
            && steps[j].target is Account
            && steps[i].target->Account_0 < steps[j].target->Account_0,
{
    assert(steps[i].precedes(steps[j]));
}

/// The globals are registered first and the locals after them, each in order
/// and as they are.
pub proof fn globals_are_registered_before_locals(globals: Seq<GlobalSlot>, locals: Seq<LocalSlot>, i: int)
    ensures
        registered(globals, locals).len() == globals.len() + locals.len(),
        0 <= i < globals.len() ==> registered(globals, locals)[i]
            == TimelineEntry::Global(globals[i]),
        0 <= i < locals.len() ==> registered(globals, locals)[globals.len() + i]
            == TimelineEntry::Local(
            locals[i],
        ),
{
}

/// Versions are unique exactly if no two globals, no two locals, and no global
/// and local share one.
pub proof fn a_version_is_claimed_once(globals: Seq<GlobalSlot>, locals: Seq<LocalSlot>)
    ensures
        versions_unique(registered(globals, locals)) <==> (forall|i: int, j: int|
            0 <= i < j < globals.len() ==> (#[trigger] globals[i]).version != (
            #[trigger] globals[j]).version) && (forall|i: int, j: int|
            0 <= i < j < locals.len() ==> (#[trigger] locals[i]).version != (
            #[trigger] locals[j]).version) && (forall|i: int, j: int|
            0 <= i < globals.len() && 0 <= j < locals.len() ==> (#[trigger] globals[i]).version != (
            #[trigger] locals[j]).version),
{
    let all = registered(globals, locals);
    let n = globals.len() as int;
    assert(forall|i: int| 0 <= i < n ==> all[i] == TimelineEntry::Global(globals[i]));
    assert(forall|i: int| n <= i < all.len() ==> all[i] == TimelineEntry::Local(locals[i - n]));
    if versions_unique(all) {
        assert forall|i: int, j: int| 0 <= i < j < globals.len() implies (#[trigger] globals[i]).version != (
        #[trigger] globals[j]).version by {
            assert(all[i].spec_version() != all[j].spec_version());
        }
        assert forall|i: int, j: int| 0 <= i < j < locals.len() implies (#[trigger] locals[i]).version != (
        #[trigger] locals[j]).version by {
            assert(all[n + i].spec_version() != all[n + j].spec_version());
        }
        assert forall|i: int, j: int| 0 <= i < globals.len() && 0 <= j < locals.len() implies (
        #[trigger] globals[i]).version != (#[trigger] locals[j]).version by {
            assert(all[i].spec_version() != all[n + j].spec_version());
        }
    }
}

/// A clash that is reported is one: the two entries are registered, the first
/// before the second, with one version, and no clash comes before it.
pub proof fn a_reported_clash_is_the_first(entries: Seq<TimelineEntry>, d: DuplicateVersion)
    requires
        first_duplicate(entries, d),
    ensures
        d.previous.spec_version() == d.duplicate.spec_version(),
        exists|i: int, j: int|
            0 <= i < j < entries.len() && #[trigger] entries[i] == d.previous
                && #[trigger] entries[j]
                == d.duplicate && forall|a: int, b: int|
                0 <= a < b < j ==> (#[trigger] entries[a]).spec_version() != (
                #[trigger] entries[b]).spec_version(),
{
    let (i, j) = choose|i: int, j: int|
        0 <= i < j < entries.len() && #[trigger] entries[i] == d.previous && #[trigger] entries[j]
            == d.duplicate && entries[i].spec_version() == entries[j].spec_version()
                && versions_unique(
            entries.take(j),
        );
    assert forall|a: int, b: int| 0 <= a < b < j implies (#[trigger] entries[a]).spec_version() != (
    #[trigger] entries[b]).spec_version() by {
        assert(entries.take(j)[a].spec_version() != entries.take(j)[b].spec_version());
    }
}

/// An entry has the version of its migration and is called after its kind.
pub proof fn an_entry_tells_its_version_and_kind(entry: TimelineEntry, d: DuplicateVersion)
    ensures
        entry is Global ==> entry.spec_version() == entry->Global_0.version && entry.spec_kind()
            == "global"@,
        entry is Local ==> entry.spec_version() == entry->Local_0.version && entry.spec_kind()
            == "local"@,
        d.spec_message() == "duplicate migration version "@ + decimal(
            d.duplicate.spec_version() as nat,
        ) + ": already registered as "@ + d.previous.spec_kind() + ", now also as "@
            + d.duplicate.spec_kind(),
{
}

/// A timeline has no two entries out of order.
pub proof fn a_timeline_rises(entries: Seq<TimelineEntry>, i: int, j: int)
    requires
        versions_rise(entries),
        0 <= i < j < entries.len(),
    ensures
        entries[i].spec_version() < entries[j].spec_version(),
{
}

/// A tracking table records a version exactly if one of its rows holds it,
/// where all of them hold versions.
pub proof fn a_recorded_version_has_a_row(rows: Seq<i64>, version: u32)
    requires
        forall|i: int| 0 <= i < rows.len() ==> 0 <= #[trigger] rows[i] <= u32::MAX,
    ensures
        recorded_versions(rows).contains(version) <==> exists|i: int|
            0 <= i < rows.len() && #[trigger] rows[i] == version,
{
    if recorded_versions(rows).contains(version) {
        let i = choose|i: int| 0 <= i < rows.len() && #[trigger] rows[i] as u32 == version;
        assert(rows[i] == version);
    }
    if exists|i: int| 0 <= i < rows.len() && #[trigger] rows[i] == version {
        let i = choose|i: int| 0 <= i < rows.len() && #[trigger] rows[i] == version;
        assert(rows[i] as u32 == version);
    }
}

// ---------------------------------------------------------------------------
// How a run and one migration proceed
// ---------------------------------------------------------------------------

/// The next step is the one after those that were carried out, unless one
/// failed or none is left.
pub proof fn a_walk_goes_on_until_it_fails(walk: WalkState, i: int)
    requires
        walk.done <= walk.steps.len(),
    ensures
        walk.next() is Some <==> !walk.failed && walk.done < walk.steps.len(),
        walk.next() is Some ==> walk.next()->0 == walk.steps[walk.done as int],
        walk.carried_out().len() == walk.done,
        0 <= i < walk.done ==> walk.carried_out()[i] == walk.steps[i],
{
}

/// The transaction that applies a migration goes from one command to the next.
/// A version that is recorded already is rolled back from and counts as
/// applied, an error while running or recording is rolled back from and counts
/// as failed, and any other error is a failure at once.
pub proof fn a_migration_is_applied_in_one_transaction(stage: ApplyStage, reply: ApplyReply)
    requires
        stage.takes(reply),
    ensures
        stage is Begin && reply is Done ==> stage.spec_next(reply) is CheckApplied,
        stage is CheckApplied && reply == ApplyReply::Recorded(true) ==> stage.spec_next(
            reply,
        ) is RollbackApplied,
        stage is CheckApplied && reply == ApplyReply::Recorded(false)
            ==> stage.spec_next(reply) is Run,
        stage is Run && reply is Done ==> stage.spec_next(reply) is Record,
        stage is Record && reply is Done ==> stage.spec_next(reply) is Commit,
        stage is Commit && reply is Done ==> stage.spec_next(reply) is Succeeded,
        stage is RollbackApplied && reply is Done ==> stage.spec_next(reply) is Succeeded,
        stage is RollbackFailed ==> stage.spec_next(reply) is Failed,
        (stage is Run || stage is Record) && reply is Error
            ==> stage.spec_next(reply) is RollbackFailed,
        (stage is Begin || stage is CheckApplied || stage is Commit || stage is RollbackApplied)
            && reply is Error ==> stage.spec_next(reply) is Failed,
{
}

/// Only the look-up in the tracking table is answered by what it found, every
/// command can fail, and nothing answers an end.
pub proof fn each_command_has_its_reply(stage: ApplyStage, reply: ApplyReply)
    ensures
        stage is Succeeded || stage is Failed ==> !stage.takes(reply),
        !(stage is Succeeded) && !(stage is Failed) && reply is Error ==> stage.takes(reply),
        stage is CheckApplied ==> (stage.takes(reply) <==> reply is Recorded || reply is Error),
        stage is Begin || stage is Run || stage is Record || stage is Commit
            || stage is RollbackApplied
            || stage is RollbackFailed ==> (stage.takes(reply) <==> reply is Done
                || reply is Error),
{
}

// ---------------------------------------------------------------------------
// Which migrations there are
// ---------------------------------------------------------------------------

/// The global migrations are 1 to 11, 13 to 16, 23 to 28, 30, 33, 35 and 37,
/// and the local ones 17 to 22, 29, 31, 32, 34 and 36.
pub proof fn the_registered_versions(v: u32)
    ensures
        global_versions().contains(v) <==> 1 <= v <= 11 || 13 <= v <= 16 || 23 <= v <= 28 || v
            == 30 || v
            == 33 || v == 35 || v == 37,
        local_versions().contains(v) <==> 17 <= v <= 22 || v == 29 || v == 31 || v == 32 || v == 34
            || v
            == 36,
{
    let g = global_versions();
    assert(g[0] == 1 && g[1] == 2 && g[2] == 3 && g[3] == 4 && g[4] == 5 && g[5] == 6 && g[6] == 7
        && g[7]
        == 8 && g[8] == 9 && g[9] == 10 && g[10] == 11 && g[11] == 13 && g[12] == 14 && g[13] == 15
        && g[14] == 16 && g[15] == 23 && g[16] == 24 && g[17] == 25 && g[18] == 26 && g[19] == 27
        && g[20] == 28 && g[21] == 30 && g[22] == 33 && g[23] == 35 && g[24] == 37);
    let l = local_versions();
    assert(l[0] == 17 && l[1] == 18 && l[2] == 19 && l[3] == 20 && l[4] == 21 && l[5] == 22 && l[6]
        == 29
        && l[7] == 31 && l[8] == 32 && l[9] == 34 && l[10] == 36);
}

/// What each global migration says of itself.
pub proof fn global_migrations_say_what_they_are()
    ensures
        m0002_add_removed_at::Migration.spec_version() == 2
            && m0002_add_removed_at::Migration.spec_description()
            == "Add removed_at to accounts_groups"@,
        m0004_add_muted_until::Migration.spec_version() == 4
            && m0004_add_muted_until::Migration.spec_description()
            == "Add muted_until to accounts_groups"@,
        m0006_add_self_removed::Migration.spec_version() == 6
            && m0006_add_self_removed::Migration.spec_description()
            == "Add self_removed to accounts_groups"@,
        m0007_search_position_index::Migration.spec_version() == 7
            && m0007_search_position_index::Migration.spec_description()
            == "Replace aggregated_messages kind-group index with message_id tiebreaker"@,
        m0009_mute_list::Migration.spec_version() == 9
            && m0009_mute_list::Migration.spec_description() == "Add NIP-51 mute list table"@,
        m0010_published_kp_kind_metadata::Migration.spec_version() == 10
            && m0010_published_kp_kind_metadata::Migration.spec_description()
            == "Add kind and d_tag columns to published_key_packages"@,
        m0011_delivery_status_account_scope::Migration.spec_version() == 11
            && m0011_delivery_status_account_scope::Migration.spec_description()
            == "Add account_pubkey to delivery status primary key"@,
        m0013_media_blob_reference_split::Migration.spec_version() == 13
            && m0013_media_blob_reference_split::Migration.spec_description()
            == "Split media_files into media_blobs (shared) and media_references (account-scoped)"@,
        m0014_drop_media_files::Migration.spec_version() == 14
            && m0014_drop_media_files::Migration.spec_description()
            == "Drop legacy media_files table after blob/reference split"@,
        m0014_processed_events_pubkey_fk::Migration.spec_version() == 14
            && m0014_processed_events_pubkey_fk::Migration.spec_description()
            == "Switch processed_events.account_id (int FK, nullable) to account_pubkey (text FK)"@,
        m0015_published_events_pubkey_fk::Migration.spec_version() == 15
            && m0015_published_events_pubkey_fk::Migration.spec_description()
            == "Switch published_events.account_id (int FK) to account_pubkey (text FK)"@,
        m0023_drop_shared_account_settings::Migration.spec_version() == 23
            && m0023_drop_shared_account_settings::Migration.spec_description()
            == "Drop shared account_settings (moved to per-account DB at v17)"@,
        m0028_purge_account_processed_events::Migration.spec_version() == 28
            && m0028_purge_account_processed_events::Migration.spec_description()
            == "Purge account-scoped rows from shared processed_events (moved at v21)"@,
        m0037_drop_shared_accounts_groups::Migration.spec_version() == 37
            && m0037_drop_shared_accounts_groups::Migration.spec_description()
            == "Drop shared accounts_groups table (data moved to per-account DBs in v36)"@,
        m0040_drop_shared_message_delivery_status::Migration.spec_version() == 40
            && m0040_drop_shared_message_delivery_status::Migration.spec_description()
            == "Drop shared message_delivery_status table (data moved to per-account DBs in v39)"@,
        m0043_drop_shared_mute_list::Migration.spec_version() == 43
            && m0043_drop_shared_mute_list::Migration.spec_description()
            == "Drop shared mute_list table (data moved to per-account DBs in v42)"@,
        m0001_bridge::Migration.spec_version() == 1 && m0001_bridge::Migration.spec_description()
            == "Bridge from SQLx migrations to Rust-only"@,
        m0005_group_push_tokens_member_identity::Migration.spec_version() == 5
            && m0005_group_push_tokens_member_identity::Migration.spec_description()
            == "Recreate group_push_tokens with member_pubkey column"@,
{
}

/// What each local migration says of itself. Only the bootstrap is for new
/// accounts alone.
pub proof fn local_migrations_say_what_they_are()
    ensures
        m0012_bootstrap::Migration.spec_version() == 31
            && m0012_bootstrap::Migration.spec_description()
            == "Bootstrap account database schema"@
            && m0012_bootstrap::Migration.spec_for_new_accounts_only(),
        m0015_move_account_settings::Migration.spec_version() == 15
            && m0015_move_account_settings::Migration.spec_description()
            == "Move account_settings into per-account database"@
            && !m0015_move_account_settings::Migration.spec_for_new_accounts_only(),
        m0016_move_drafts::Migration.spec_version() == 16
            && m0016_move_drafts::Migration.spec_description()
            == "Move drafts into per-account database"@
            && !m0016_move_drafts::Migration.spec_for_new_accounts_only(),
        m0017_move_published_key_packages::Migration.spec_version() == 17
            && m0017_move_published_key_packages::Migration.spec_description()
            == "Move published_key_packages into per-account database"@
            && !m0017_move_published_key_packages::Migration.spec_for_new_accounts_only(),
        m0018_move_published_events::Migration.spec_version() == 18
            && m0018_move_published_events::Migration.spec_description()
            == "Move published_events into per-account database"@
            && !m0018_move_published_events::Migration.spec_for_new_accounts_only(),
        m0019_move_processed_events::Migration.spec_version() == 19
            && m0019_move_processed_events::Migration.spec_description()
            == "Move account-scoped processed_events into per-account database"@
            && !m0019_move_processed_events::Migration.spec_for_new_accounts_only(),
        m0022_move_account_follows::Migration.spec_version() == 22
            && m0022_move_account_follows::Migration.spec_description()
            == "Move account_follows into per-account database"@
            && !m0022_move_account_follows::Migration.spec_for_new_accounts_only(),
        m0029_move_media_references::Migration.spec_version() == 29
            && m0029_move_media_references::Migration.spec_description()
            == "Move media_references into per-account database"@
            && !m0029_move_media_references::Migration.spec_for_new_accounts_only(),
        m0032_move_push_registrations::Migration.spec_version() == 32
            && m0032_move_push_registrations::Migration.spec_description()
            == "Move push_registrations into per-account database"@
            && !m0032_move_push_registrations::Migration.spec_for_new_accounts_only(),
        m0034_move_group_push_tokens::Migration.spec_version() == 34
            && m0034_move_group_push_tokens::Migration.spec_description()
            == "Move group_push_tokens into per-account database"@
            && !m0034_move_group_push_tokens::Migration.spec_for_new_accounts_only(),
        m0036_move_accounts_groups::Migration.spec_version() == 36
            && m0036_move_accounts_groups::Migration.spec_description()
            == "Move accounts_groups into per-account database"@
            && !m0036_move_accounts_groups::Migration.spec_for_new_accounts_only(),
        m0038_move_aggregated_messages::Migration.spec_version() == 38
            && m0038_move_aggregated_messages::Migration.spec_description()
            == "Move aggregated_messages into per-account database"@
            && !m0038_move_aggregated_messages::Migration.spec_for_new_accounts_only(),
        m0039_move_message_delivery_status::Migration.spec_version() == 39
            && m0039_move_message_delivery_status::Migration.spec_description()
            == "Move message_delivery_status into per-account database"@
            && !m0039_move_message_delivery_status::Migration.spec_for_new_accounts_only(),
        m0042_move_mute_list::Migration.spec_version() == 42
            && m0042_move_mute_list::Migration.spec_description()
            == "Move mute_list into per-account database"@
            && !m0042_move_mute_list::Migration.spec_for_new_accounts_only(),
        m0044_reparse_content_tokens::Migration.spec_version() == 44
            && m0044_reparse_content_tokens::Migration.spec_description()
            == "Reparse content_tokens with updated markdown parser"@
            && !m0044_reparse_content_tokens::Migration.spec_for_new_accounts_only(),
        m0046_account_maintenance_tasks::Migration.spec_version() == 46
            && m0046_account_maintenance_tasks::Migration.spec_description()
            == "Create account maintenance task markers"@
            && !m0046_account_maintenance_tasks::Migration.spec_for_new_accounts_only(),
        m0047_add_event_created_at_to_mute_list::Migration.spec_version() == 47
            && m0047_add_event_created_at_to_mute_list::Migration.spec_description()
            == "Add event_created_at to mute_list for cross-device backfill"@
            && !m0047_add_event_created_at_to_mute_list::Migration.spec_for_new_accounts_only(),
        m0047_darkmatter_key_package_metadata::Migration.spec_version() == 47
            && m0047_darkmatter_key_package_metadata::Migration.spec_description()
            == "Add Darkmatter key package metadata"@
            && !m0047_darkmatter_key_package_metadata::Migration.spec_for_new_accounts_only(),
        m0048_add_is_blocked_to_aggregated_messages::Migration.spec_version() == 48
            && m0048_add_is_blocked_to_aggregated_messages::Migration.spec_description()
            == "Add is_blocked marker to aggregated_messages"@
            && !m0048_add_is_blocked_to_aggregated_messages::Migration.spec_for_new_accounts_only(),
        m0048_darkmatter_key_package_content_cache::Migration.spec_version() == 48
            && m0048_darkmatter_key_package_content_cache::Migration.spec_description()
            == "Cache Darkmatter key package content"@
            && !m0048_darkmatter_key_package_content_cache::Migration.spec_for_new_accounts_only(),
        m0049_marmot_message_projections::Migration.spec_version() == 49
            && m0049_marmot_message_projections::Migration.spec_description()
            == "Create Marmot message projections"@
            && !m0049_marmot_message_projections::Migration.spec_for_new_accounts_only(),
        m0050_group_push_token_metadata::Migration.spec_version() == 50
            && m0050_group_push_token_metadata::Migration.spec_description()
            == "Add Darkmatter push-token metadata"@
            && !m0050_group_push_token_metadata::Migration.spec_for_new_accounts_only(),
{
}

/// The tracking tables of the accounts are seen in the order of the accounts.
pub proof fn accounts_are_seen_in_order(accounts: Seq<HashSet<u32>>, i: int)
    ensures
        applied_views(accounts).len() == accounts.len(),
        0 <= i < accounts.len() ==> applied_views(accounts)[i] == accounts[i]@,
{
}

} // verus!
