use std::collections::HashSet;

use whitenoise::whitenoise::database::rust_migrations::global::m0001_bridge;
use whitenoise::whitenoise::database::rust_migrations::global::m0001_bridge::BridgePlan;
use whitenoise::whitenoise::database::rust_migrations::m0012_bootstrap;
use whitenoise::whitenoise::database::rust_migrations::migration::{
    global_slot, local_slot, GlobalMigration, LocalMigration,
};
use whitenoise::whitenoise::database::rust_migrations::timeline::{LocalSlot, Migrator};
use whitenoise::whitenoise::database::DatabaseError;

fn stamped(version: i64) -> Vec<u32> {
    match m0001_bridge::Migration.run_global(Some(version)) {
        Ok(BridgePlan::Stamp(versions)) => versions,
        other => panic!("no versions to stamp: {other:?}"),
    }
}

#[test]
fn fresh_install_creates_schema() {
    assert!(matches!(
        m0001_bridge::Migration.run_global(None),
        Ok(BridgePlan::CreateSchema)
    ));
}

#[test]
fn existing_install_with_correct_version_passes() {
    assert!(stamped(m0001_bridge::EXPECTED_SQLX_VERSION).is_empty());
}

#[test]
fn existing_install_with_wrong_version_errors() {
    match m0001_bridge::Migration.run_global(Some(10)) {
        Err(DatabaseError::Protocol(message)) => {
            assert!(message.contains("unexpected state"), "got: {message}");
            assert!(message.contains("10"));
        }
        other => panic!("an old install must be refused, got {other:?}"),
    }
}

#[test]
fn master_upgrade_stamps_existing_sqlx_conversions() {
    assert_eq!(stamped(46), vec![2, 3, 4, 5, 6, 7, 8, 9, 10]);
    assert!(m0001_bridge::Migration.stamp_description().contains("Auto-stamped"));
}

#[test]
fn version_37_stamps_nothing() {
    assert!(stamped(37).is_empty());
}

#[test]
fn partial_sqlx_version_stamps_subset() {
    assert_eq!(stamped(42), vec![2, 3, 4, 5, 6]);
}

#[test]
fn later_sqlx_versions_stamp_no_more() {
    assert_eq!(stamped(47), vec![2, 3, 4, 5, 6, 7, 8, 9, 10, 11]);
    assert_eq!(stamped(1000), stamped(47));
}

#[test]
fn bridge_is_the_first_migration() {
    let slot = global_slot(&m0001_bridge::Migration);
    assert_eq!(slot.version, 1);
    assert_eq!(m0001_bridge::Migration.version(), 1);
    assert!(!m0001_bridge::Migration.description().is_empty());
}

#[test]
fn bridge_is_idempotent() {
    let migrator = Migrator::new(vec![global_slot(&m0001_bridge::Migration)], vec![]);
    let mut recorded: HashSet<u32> = HashSet::new();
    for _ in 0..2 {
        for step in migrator.run(&recorded, None) {
            recorded.insert(step.version);
        }
    }
    assert_eq!(recorded.len(), 1);
    assert!(migrator.run(&recorded, None).is_empty());
}

#[test]
fn bootstrap_records_itself_for_a_fresh_account() {
    let slot = local_slot(&m0012_bootstrap::Migration);
    assert_eq!(slot, LocalSlot { version: 31, for_new_accounts_only: true });
    let migrator = Migrator::new(vec![], vec![slot]);
    let steps = migrator.run(&HashSet::new(), Some(&HashSet::new()));
    assert_eq!(steps.len(), 1);
    assert_eq!(steps[0].version, 31);
}

#[test]
fn bootstrap_is_idempotent() {
    let bootstrap = m0012_bootstrap::Migration;
    let mut once: HashSet<u32> = HashSet::new();
    bootstrap.run_local(&mut once);
    let mut twice = once.clone();
    bootstrap.run_local(&mut twice);
    assert_eq!(once, twice);
    assert_eq!(once.len(), bootstrap.stamped_versions().len());
}

#[test]
fn bootstrap_stamps_versions_listed_as_prior_baseline() {
    let bootstrap = m0012_bootstrap::Migration;
    let mut applied: HashSet<u32> = [99, 100].into_iter().collect();
    bootstrap.run_local(&mut applied);
    for version in bootstrap.stamped_versions() {
        assert!(applied.contains(&version));
    }
    assert!(applied.contains(&99) && applied.contains(&100));
    assert_eq!(bootstrap.stamped_versions(), vec![17, 18, 19, 20, 21, 22, 29]);
    assert!(bootstrap.stamp_description().contains("baseline"));
}

#[test]
fn bootstrap_skips_for_pre_existing_account() {
    let probe = LocalSlot { version: 25, for_new_accounts_only: false };
    let migrator = Migrator::new(vec![], vec![local_slot(&m0012_bootstrap::Migration), probe]);
    let account: HashSet<u32> = [25].into_iter().collect();
    assert!(migrator.run(&HashSet::new(), Some(&account)).is_empty());
    assert!(m0012_bootstrap::Migration.for_new_accounts_only());
}
