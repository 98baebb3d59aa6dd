use std::collections::HashSet;

use whitenoise::whitenoise::database::rust_migrations::registry::{self, migrator};
use whitenoise::whitenoise::database::rust_migrations::timeline::{
    find_duplicate_version, load_applied, GlobalSlot, LocalSlot, Migrator, Step, Target,
    TimelineEntry,
};
use whitenoise::whitenoise::database::rust_migrations::walk::{ApplyReply, ApplyStage, Walk};

fn globals(versions: &[u32]) -> Vec<GlobalSlot> {
    versions.iter().map(|v| GlobalSlot { version: *v }).collect()
}

fn locals(versions: &[u32]) -> Vec<LocalSlot> {
    versions
        .iter()
        .map(|v| LocalSlot { version: *v, for_new_accounts_only: false })
        .collect()
}

fn new_only(versions: &[u32]) -> Vec<LocalSlot> {
    versions
        .iter()
        .map(|v| LocalSlot { version: *v, for_new_accounts_only: true })
        .collect()
}

fn applied(versions: &[u32]) -> HashSet<u32> {
    versions.iter().copied().collect()
}

/// Builds the timeline, or panics with the clash as a program would.
fn timeline(globals: Vec<GlobalSlot>, locals: Vec<LocalSlot>) -> Migrator {
    if let Some(clash) = find_duplicate_version(&globals, &locals) {
        panic!("{}", clash.message());
    }
    Migrator::new(globals, locals)
}

fn versions(steps: &[Step]) -> Vec<u32> {
    steps.iter().map(|s| s.version).collect()
}

/// Carries a plan out: every step records its version where it applies.
fn carry_out(
    steps: Vec<Step>,
    shared: &mut HashSet<u32>,
    accounts: &mut [HashSet<u32>],
    failing: Option<u32>,
) -> Result<usize, u32> {
    let mut walk = Walk::new(steps);
    while let Some(step) = walk.next_step() {
        let succeeded = failing != Some(step.version);
        if succeeded {
            match step.target {
                Target::Shared => shared.insert(step.version),
                Target::Account(k) => accounts[k].insert(step.version),
            };
        }
        walk.report(succeeded);
        if !succeeded {
            assert!(walk.has_failed());
            return Err(step.version);
        }
    }
    assert!(!walk.has_failed());
    Ok(walk.applied_count())
}

#[test]
fn empty_migrator_has_nothing_to_do() {
    let m = timeline(vec![], vec![]);
    assert!(m.run(&applied(&[]), None).is_empty());
}

#[test]
#[should_panic(expected = "duplicate migration version 5")]
fn duplicate_version_within_globals_panics() {
    timeline(globals(&[5, 5]), vec![]);
}

#[test]
#[should_panic(expected = "duplicate migration version 5")]
fn duplicate_version_within_locals_panics() {
    timeline(vec![], locals(&[5, 5]));
}

#[test]
#[should_panic(expected = "duplicate migration version 5")]
fn duplicate_version_across_scopes_panics() {
    timeline(globals(&[5]), locals(&[5]));
}

#[test]
fn clash_names_both_kinds() {
    let clash = find_duplicate_version(&globals(&[5]), &locals(&[5])).unwrap();
    assert_eq!(
        clash.message(),
        "duplicate migration version 5: already registered as global, now also as local"
    );
    assert_eq!(clash.previous, TimelineEntry::Global(GlobalSlot { version: 5 }));
    assert_eq!(clash.duplicate.version(), 5);
    assert_eq!(clash.duplicate.kind_str(), "local");
    assert!(find_duplicate_version(&globals(&[1, 3]), &locals(&[2])).is_none());
}

#[test]
fn run_none_applies_globals_only() {
    let m = timeline(globals(&[1, 3]), locals(&[2]));
    let steps = m.run(&applied(&[]), None);
    assert_eq!(
        steps,
        vec![
            Step { version: 1, target: Target::Shared },
            Step { version: 3, target: Target::Shared },
        ]
    );
}

#[test]
fn run_none_is_idempotent() {
    let m = timeline(globals(&[1]), vec![]);
    let mut shared = applied(&[]);
    assert_eq!(carry_out(m.run(&shared, None), &mut shared, &mut [], None), Ok(1));
    assert_eq!(carry_out(m.run(&shared, None), &mut shared, &mut [], None), Ok(0));
    assert_eq!(shared.len(), 1);
}

#[test]
fn run_none_global_failure_stops_subsequent() {
    let m = timeline(globals(&[1, 2, 3]), vec![]);
    let mut shared = applied(&[]);
    assert_eq!(carry_out(m.run(&shared, None), &mut shared, &mut [], Some(2)), Err(2));
    assert_eq!(shared, applied(&[1]));
}

#[test]
fn run_for_account_applies_locals_to_account() {
    let m = timeline(vec![], locals(&[1]));
    let mut shared = applied(&[]);
    let mut accounts = [applied(&[])];
    let steps = m.run(&shared, Some(&accounts[0]));
    carry_out(steps, &mut shared, &mut accounts, None).unwrap();
    assert_eq!(accounts[0].len(), 1);
    assert_eq!(shared.len(), 0, "shared must not record local versions");
}

#[test]
fn run_for_account_is_idempotent() {
    let m = timeline(globals(&[1]), locals(&[2]));
    let mut shared = applied(&[]);
    let mut accounts = [applied(&[])];
    for _ in 0..2 {
        let steps = m.run(&shared, Some(&accounts[0]));
        carry_out(steps, &mut shared, &mut accounts, None).unwrap();
    }
    assert_eq!(shared.len(), 1);
    assert_eq!(accounts[0].len(), 1);
    assert!(m.run(&shared, Some(&accounts[0])).is_empty());
}

#[test]
fn run_for_account_local_failure_stops_subsequent() {
    let m = timeline(vec![], locals(&[1, 2, 3]));
    let mut shared = applied(&[]);
    let mut accounts = [applied(&[])];
    let steps = m.run(&shared, Some(&accounts[0]));
    assert_eq!(carry_out(steps, &mut shared, &mut accounts, Some(2)), Err(2));
    assert_eq!(accounts[0], applied(&[1]));
}

#[test]
fn interrupted_run_goes_on() {
    let m = timeline(globals(&[1, 4]), locals(&[2, 3]));
    let mut shared = applied(&[]);
    let mut accounts = [applied(&[])];
    let steps = m.run(&shared, Some(&accounts[0]));
    assert_eq!(carry_out(steps, &mut shared, &mut accounts, Some(3)), Err(3));
    assert_eq!(versions(&m.run(&shared, Some(&accounts[0]))), vec![3, 4]);

    // A migration for new accounts only is left out once the account has begun.
    let mut slots = locals(&[2]);
    slots.extend(new_only(&[3]));
    let m = timeline(vec![], slots);
    let mut accounts = [applied(&[])];
    let steps = m.run(&shared, Some(&accounts[0]));
    assert_eq!(carry_out(steps, &mut shared, &mut accounts, Some(3)), Err(3));
    assert!(m.run(&shared, Some(&accounts[0])).is_empty());
}

#[test]
fn interleaved_migrations_run_in_unified_version_order() {
    let m = timeline(globals(&[5, 1, 3]), locals(&[4, 2]));
    let steps = m.run(&applied(&[]), Some(&applied(&[])));
    assert_eq!(versions(&steps), vec![1, 2, 3, 4, 5]);
}

#[test]
fn local_in_unified_timeline_runs_before_later_global() {
    let m = timeline(globals(&[1, 3]), locals(&[2]));
    let steps = m.run(&applied(&[]), Some(&applied(&[])));
    assert_eq!(
        steps,
        vec![
            Step { version: 1, target: Target::Shared },
            Step { version: 2, target: Target::Account(0) },
            Step { version: 3, target: Target::Shared },
        ]
    );
}

#[test]
fn run_all_applies_local_to_every_account() {
    let m = timeline(globals(&[1]), locals(&[2]));
    let mut shared = applied(&[]);
    let mut accounts = vec![applied(&[]), applied(&[])];
    let steps = m.run_all(&shared, &accounts);
    carry_out(steps, &mut shared, &mut accounts, None).unwrap();
    assert_eq!(shared.len(), 1);
    for account in &accounts {
        assert!(account.contains(&2));
    }
}

#[test]
fn run_all_walks_in_unified_order_across_accounts() {
    let m = timeline(globals(&[1, 3]), locals(&[2]));
    let steps = m.run_all(&applied(&[]), &vec![applied(&[]), applied(&[])]);
    assert_eq!(versions(&steps), vec![1, 2, 2, 3]);
    assert_eq!(steps[1].target, Target::Account(0));
    assert_eq!(steps[2].target, Target::Account(1));
}

#[test]
fn new_accounts_only_runs_for_fresh_account() {
    let m = timeline(vec![], new_only(&[12]));
    assert_eq!(versions(&m.run(&applied(&[]), Some(&applied(&[])))), vec![12]);
}

#[test]
fn new_accounts_only_skips_for_existing_account() {
    let mut slots = new_only(&[12]);
    slots.extend(locals(&[15]));
    let m = timeline(vec![], slots);
    assert!(m.run(&applied(&[]), Some(&applied(&[15]))).is_empty());
}

#[test]
fn new_accounts_only_runs_when_only_globals_are_pre_stamped() {
    let m = timeline(vec![], new_only(&[12]));
    let account: HashSet<u32> = (1..=11).collect();
    assert_eq!(versions(&m.run(&applied(&[]), Some(&account))), vec![12]);
}

#[test]
fn new_accounts_only_freshness_is_snapshot_at_walk_start() {
    let m = timeline(vec![], new_only(&[12, 13]));
    assert_eq!(versions(&m.run(&applied(&[]), Some(&applied(&[])))), vec![12, 13]);
}

#[test]
fn tracking_rows_are_read_as_versions() {
    assert_eq!(load_applied(&vec![1, 2, 2, 11]), applied(&[1, 2, 11]));
    assert!(load_applied(&vec![]).is_empty());
}

#[test]
fn applying_runs_records_and_commits() {
    let mut stage = ApplyStage::Begin;
    let mut seen = vec![];
    for reply in [
        ApplyReply::Done,
        ApplyReply::Recorded(false),
        ApplyReply::Done,
        ApplyReply::Done,
        ApplyReply::Done,
    ] {
        stage = stage.next(reply);
        seen.push(stage);
    }
    assert!(matches!(
        seen[..],
        [
            ApplyStage::CheckApplied,
            ApplyStage::Run,
            ApplyStage::Record,
            ApplyStage::Commit,
            ApplyStage::Succeeded
        ]
    ));
}

#[test]
fn applying_backs_out_where_another_process_was_first() {
    let stage = ApplyStage::CheckApplied.next(ApplyReply::Recorded(true));
    assert!(matches!(stage, ApplyStage::RollbackApplied));
    assert!(matches!(stage.next(ApplyReply::Done), ApplyStage::Succeeded));
}

#[test]
fn failed_work_is_rolled_back() {
    for stage in [ApplyStage::Run, ApplyStage::Record] {
        let back = stage.next(ApplyReply::Error);
        assert!(matches!(back, ApplyStage::RollbackFailed));
        assert!(matches!(back.next(ApplyReply::Done), ApplyStage::Failed));
    }
    assert!(matches!(ApplyStage::Begin.next(ApplyReply::Error), ApplyStage::Failed));
}

#[test]
fn registered_migrations_have_their_versions() {
    let globals = registry::all_global_migrations();
    let locals = registry::all_local_migrations();
    assert!(find_duplicate_version(&globals, &locals).is_none());
    assert_eq!(globals[0].version, 1);
    assert!(globals.windows(2).all(|pair| pair[0].version < pair[1].version));
    let versions: Vec<u32> = locals.iter().map(|l| l.version).collect();
    assert_eq!(versions, vec![17, 18, 19, 20, 21, 22, 29, 31, 32, 34, 36]);
    assert!(locals.iter().any(|l| l.version == 31 && l.for_new_accounts_only));
    assert!(locals.iter().all(|l| l.version == 31 || !l.for_new_accounts_only));
    let steps = migrator().run(&applied(&[]), Some(&applied(&[])));
    assert_eq!(steps.len(), globals.len() + locals.len());
    for pair in steps.windows(2) {
        assert!(pair[0].version < pair[1].version);
    }
}
