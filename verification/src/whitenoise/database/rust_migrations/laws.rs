//! What every run of the migration timeline keeps.

use vstd::prelude::*;

use super::timeline::{
    is_fresh, is_plan, local_due, local_versions_of, step_due, versions_rise, GlobalSlot, LocalSlot,
    Step, Target, TimelineEntry,
};

verus! {

/// Steps in execution order never repeat.
proof fn lemma_precedes_irreflexive(a: Step, b: Step)
    requires
        a.precedes(b),
    ensures
        a != b,
        !b.precedes(a),
{
}

/// The recorded versions decide the plan: two plans for one state are the same list.
pub proof fn plan_is_determined(
    first: Seq<Step>,
    second: Seq<Step>,
    entries: Seq<TimelineEntry>,
    shared: Set<u32>,
    accounts: Seq<Set<u32>>,
)
    requires
        is_plan(first, entries, shared, accounts),
        is_plan(second, entries, shared, accounts),
    ensures
        first == second,
{
    lemma_same_steps(first, second);
}

proof fn lemma_same_steps(a: Seq<Step>, b: Seq<Step>)
    requires
        forall|i: int, j: int| 0 <= i < j < a.len() ==> (#[trigger] a[i]).precedes(#[trigger] a[j]),
        forall|i: int, j: int| 0 <= i < j < b.len() ==> (#[trigger] b[i]).precedes(#[trigger] b[j]),
        forall|s: Step| a.contains(s) <==> b.contains(s),
    ensures
        a == b,
    decreases a.len(),
{
    if a.len() == 0 {
        if b.len() > 0 {
            assert(b.contains(b[0]));
            assert(a.contains(b[0]));
        }
        assert(a =~= b);
    } else {
        assert(a.contains(a.last()));
        assert(b.contains(a.last()));
        let j = choose|j: int| 0 <= j < b.len() && b[j] == a.last();
        assert(b.contains(b.last()));
        assert(a.contains(b.last()));
        let i = choose|i: int| 0 <= i < a.len() && a[i] == b.last();
        if i < a.len() - 1 {
            assert(a[i].precedes(a[a.len() - 1]));
            if j < b.len() - 1 {
                assert(b[j].precedes(b[b.len() - 1]));
                lemma_precedes_irreflexive(a[i], a.last());
            }
        }
        assert(a.last() == b.last());
        let ra = a.drop_last();
        let rb = b.drop_last();
        assert forall|s: Step| ra.contains(s) <==> rb.contains(s) by {
            if ra.contains(s) {
                let k = choose|k: int| 0 <= k < ra.len() && ra[k] == s;
                assert(a[k].precedes(a[a.len() - 1]));
                assert(a[k] == s);
                assert(b.contains(s));
                let m = choose|m: int| 0 <= m < b.len() && b[m] == s;
                assert(m != b.len() - 1);
                assert(rb[m] == s);
            }
            if rb.contains(s) {
                let k = choose|k: int| 0 <= k < rb.len() && rb[k] == s;
                assert(b[k].precedes(b[b.len() - 1]));
                assert(b[k] == s);
                assert(a.contains(s));
                let m = choose|m: int| 0 <= m < a.len() && a[m] == s;
                assert(m != a.len() - 1);
                assert(ra[m] == s);
            }
        }
        lemma_same_steps(ra, rb);
        assert(a =~= ra.push(a.last()));
        assert(b =~= rb.push(b.last()));
    }
}

/// Every version that `steps` applies to `target` is recorded in `applied`.
pub open spec fn records(applied: Set<u32>, steps: Seq<Step>, target: Target) -> bool {
    forall|i: int|
        0 <= i < steps.len() && (#[trigger] steps[i]).target == target ==> applied.contains(
            steps[i].version,
        )
}

/// Running twice is running once: when every step of a run has been recorded
/// and nothing recorded was lost, the next run has nothing to do.
pub proof fn rerun_has_nothing_to_do(
    steps: Seq<Step>,
    again: Seq<Step>,
    entries: Seq<TimelineEntry>,
    shared: Set<u32>,
    accounts: Seq<Set<u32>>,
    shared_after: Set<u32>,
    accounts_after: Seq<Set<u32>>,
)
    requires
        is_plan(steps, entries, shared, accounts),
        shared.subset_of(shared_after),
        records(shared_after, steps, Target::Shared),
        accounts_after.len() == accounts.len() <= usize::MAX,
        forall|k: int|
            0 <= k < accounts.len() ==> (#[trigger] accounts[k]).subset_of(accounts_after[k])
                && records(accounts_after[k], steps, Target::Account(k as usize)),
        is_plan(again, entries, shared_after, accounts_after),
    ensures
        again.len() == 0,
{
    if again.len() > 0 {
        let s = again[0];
        assert(again.contains(s));
        assert(step_due(entries, shared_after, accounts_after, s));
        match s.target {
            Target::Shared => {
                assert(step_due(entries, shared, accounts, s));
                assert(steps.contains(s));
                let i = choose|i: int| 0 <= i < steps.len() && steps[i] == s;
                assert(shared_after.contains(steps[i].version));
            },
            Target::Account(k) => {
                let before = accounts[k as int];
                let after = accounts_after[k as int];
                let slot = choose|slot: LocalSlot|
                    slot.version == s.version && #[trigger] entries.contains(
                        TimelineEntry::Local(slot),
                    ) && local_due(slot, after, is_fresh(after, entries));
                if is_fresh(after, entries) {
                    assert(is_fresh(before, entries)) by {
                        assert forall|v: u32|
                            !(before.contains(v) && local_versions_of(entries).contains(v)) by {
                            if before.contains(v) && local_versions_of(entries).contains(v) {
                                assert(after.contains(v));
                            }
                        }
                    }
                }
                assert(local_due(slot, before, is_fresh(before, entries)));
                assert(step_due(entries, shared, accounts, s));
                assert(steps.contains(s));
                let i = choose|i: int| 0 <= i < steps.len() && steps[i] == s;
                assert(records(after, steps, Target::Account(k)));
                assert(after.contains(steps[i].version));
            },
        }
    }
}

/// What a tracking table records once `steps` have been carried out.
pub open spec fn recorded_after(applied: Set<u32>, steps: Seq<Step>, target: Target) -> Set<u32> {
    Set::new(
        |v: u32|
            applied.contains(v) || exists|i: int|
                0 <= i < steps.len() && (#[trigger] steps[i]).target == target && steps[i].version == v,
    )
}

/// A run that stopped after `n` steps is gone on with by the next run. That
/// one does nothing but what was left, and leaves nothing of it out but
/// migrations for new accounts only, whose account is no longer new.
pub proof fn interrupted_run_goes_on(
    steps: Seq<Step>,
    n: int,
    again: Seq<Step>,
    entries: Seq<TimelineEntry>,
    shared: Set<u32>,
    accounts: Seq<Set<u32>>,
)
    requires
        is_plan(steps, entries, shared, accounts),
        0 <= n <= steps.len(),
        accounts.len() <= usize::MAX,
        is_plan(
            again,
            entries,
            recorded_after(shared, steps.take(n), Target::Shared),
            Seq::new(
                accounts.len(),
                |k: int| recorded_after(accounts[k], steps.take(n), Target::Account(k as usize)),
            ),
        ),
    ensures
        forall|s: Step| #[trigger] again.contains(s) ==> steps.skip(n).contains(s),
        forall|s: Step|
            steps.skip(n).contains(s) && (s.target is Shared || entries.contains(
                TimelineEntry::Local(
                    LocalSlot { version: s.version, for_new_accounts_only: false },
                ),
            )) ==> #[trigger] again.contains(s),
{
    let shared_after = recorded_after(shared, steps.take(n), Target::Shared);
    let accounts_after = Seq::new(
        accounts.len(),
        |k: int| recorded_after(accounts[k], steps.take(n), Target::Account(k as usize)),
    );
    assert forall|s: Step| #[trigger] again.contains(s) implies steps.skip(n).contains(s) by {
        assert(step_due(entries, shared_after, accounts_after, s));
        match s.target {
            Target::Shared => {},
            Target::Account(k) => {
                let before = accounts[k as int];
                let after = accounts_after[k as int];
                let slot = choose|slot: LocalSlot|
                    slot.version == s.version && #[trigger] entries.contains(
                        TimelineEntry::Local(slot),
                    ) && local_due(slot, after, is_fresh(after, entries));
                if is_fresh(after, entries) {
                    assert forall|v: u32|
                        !(before.contains(v) && local_versions_of(entries).contains(v)) by {
                        if before.contains(v) && local_versions_of(entries).contains(v) {
                            assert(after.contains(v));
                        }
                    }
                }
                assert(local_due(slot, before, is_fresh(before, entries)));
            },
        }
        assert(step_due(entries, shared, accounts, s));
        assert(steps.contains(s));
        let i = choose|i: int| 0 <= i < steps.len() && steps[i] == s;
        if i < n {
            assert(steps.take(n)[i] == s);
        }
        assert(steps.skip(n)[i - n] == s);
    }
    assert forall|s: Step|
        steps.skip(n).contains(s) && (s.target is Shared || entries.contains(
            TimelineEntry::Local(LocalSlot { version: s.version, for_new_accounts_only: false }),
        )) implies #[trigger] again.contains(s) by {
        let j = choose|j: int| 0 <= j < steps.skip(n).len() && steps.skip(n)[j] == s;
        assert(steps[n + j] == s);
        assert(steps.contains(s));
        assert(step_due(entries, shared, accounts, s));
        assert forall|m: int| 0 <= m < n implies #[trigger] steps.take(n)[m] != s by {
            assert(steps[m].precedes(steps[n + j]));
        }
        match s.target {
            Target::Shared => {
                assert(!shared_after.contains(s.version));
            },
            Target::Account(k) => {
                let slot = LocalSlot { version: s.version, for_new_accounts_only: false };
                assert(entries.contains(TimelineEntry::Local(slot)));
                assert(!accounts_after[k as int].contains(s.version));
                assert(local_due(
                    slot,
                    accounts_after[k as int],
                    is_fresh(accounts_after[k as int], entries),
                ));
            },
        }
        assert(step_due(entries, shared_after, accounts_after, s));
    }
}

/// A migration runs on every database that needs it before any migration with
/// a higher version runs anywhere.
pub proof fn lower_versions_run_first(
    steps: Seq<Step>,
    entries: Seq<TimelineEntry>,
    shared: Set<u32>,
    accounts: Seq<Set<u32>>,
    i: int,
    j: int,
)
    requires
        is_plan(steps, entries, shared, accounts),
        0 <= i < steps.len(),
        0 <= j < steps.len(),
        steps[i].version < steps[j].version,
    ensures
        i < j,
{
    if j <= i {
        if j < i {
            assert(steps[j].precedes(steps[i]));
        }
    }
}

/// Global migrations go to the shared database and local ones to account
/// databases, never the other way round.
pub proof fn scopes_never_mix(
    steps: Seq<Step>,
    entries: Seq<TimelineEntry>,
    shared: Set<u32>,
    accounts: Seq<Set<u32>>,
    i: int,
    n: int,
)
    requires
        versions_rise(entries),
        is_plan(steps, entries, shared, accounts),
        0 <= i < steps.len(),
        0 <= n < entries.len(),
        entries[n].spec_version() == steps[i].version,
    ensures
        steps[i].target is Shared <==> entries[n] is Global,
{
    let s = steps[i];
    assert(steps.contains(s));
    assert(step_due(entries, shared, accounts, s));
    match s.target {
        Target::Shared => {
            let e = TimelineEntry::Global(GlobalSlot { version: s.version });
            let m = choose|m: int| 0 <= m < entries.len() && entries[m] == e;
            if m < n {
                assert(entries[m].spec_version() < entries[n].spec_version());
            } else if n < m {
                assert(entries[n].spec_version() < entries[m].spec_version());
            }
        },
        Target::Account(k) => {
            let slot = choose|slot: LocalSlot|
                slot.version == s.version && #[trigger] entries.contains(TimelineEntry::Local(slot))
                    && local_due(slot, accounts[k as int], is_fresh(accounts[k as int], entries));
            let m = choose|m: int| 0 <= m < entries.len() && entries[m] == TimelineEntry::Local(slot);
            if m < n {
                assert(entries[m].spec_version() < entries[n].spec_version());
            } else if n < m {
                assert(entries[n].spec_version() < entries[m].spec_version());
            }
        },
    }
}

/// Without an account a run touches the shared database only.
pub proof fn shared_only_run_skips_locals(
    steps: Seq<Step>,
    entries: Seq<TimelineEntry>,
    shared: Set<u32>,
    i: int,
)
    requires
        is_plan(steps, entries, shared, Seq::empty()),
        0 <= i < steps.len(),
    ensures
        steps[i].target is Shared,
{
    assert(steps.contains(steps[i]));
}

/// A migration for new accounts only is part of a run exactly when it is not
/// recorded and the account was fresh when the run began.
pub proof fn new_accounts_only_needs_freshness(
    steps: Seq<Step>,
    entries: Seq<TimelineEntry>,
    shared: Set<u32>,
    accounts: Seq<Set<u32>>,
    slot: LocalSlot,
    k: usize,
)
    requires
        versions_rise(entries),
        is_plan(steps, entries, shared, accounts),
        entries.contains(TimelineEntry::Local(slot)),
        slot.for_new_accounts_only,
        k < accounts.len(),
    ensures
        steps.contains(Step { version: slot.version, target: Target::Account(k) }) <==> (
        !accounts[k as int].contains(slot.version) && is_fresh(accounts[k as int], entries)),
{
    let s = Step { version: slot.version, target: Target::Account(k) };
    if steps.contains(s) {
        assert(step_due(entries, shared, accounts, s));
        let other = choose|other: LocalSlot|
            other.version == s.version && #[trigger] entries.contains(TimelineEntry::Local(other))
                && local_due(other, accounts[k as int], is_fresh(accounts[k as int], entries));
        let m = choose|m: int| 0 <= m < entries.len() && entries[m] == TimelineEntry::Local(other);
        let n = choose|n: int| 0 <= n < entries.len() && entries[n] == TimelineEntry::Local(slot);
        if m < n {
            assert(entries[m].spec_version() < entries[n].spec_version());
        } else if n < m {
            assert(entries[n].spec_version() < entries[m].spec_version());
        }
    }
    if !accounts[k as int].contains(slot.version) && is_fresh(accounts[k as int], entries) {
        assert(local_due(slot, accounts[k as int], true));
        assert(step_due(entries, shared, accounts, s));
    }
}

/// A fresh account gets every local migration in one run: what the run itself
/// records along the way does not make the account less fresh.
pub proof fn fresh_account_gets_every_local(
    steps: Seq<Step>,
    entries: Seq<TimelineEntry>,
    shared: Set<u32>,
    accounts: Seq<Set<u32>>,
    slot: LocalSlot,
    k: usize,
)
    requires
        is_plan(steps, entries, shared, accounts),
        entries.contains(TimelineEntry::Local(slot)),
        k < accounts.len(),
        is_fresh(accounts[k as int], entries),
    ensures
        steps.contains(Step { version: slot.version, target: Target::Account(k) }),
{
    let s = Step { version: slot.version, target: Target::Account(k) };
    let n = choose|n: int| 0 <= n < entries.len() && entries[n] == TimelineEntry::Local(slot);
    assert(entries[n] is Local && entries[n].spec_version() == slot.version);
    assert(local_versions_of(entries).contains(slot.version));
    assert(!accounts[k as int].contains(slot.version));
    assert(step_due(entries, shared, accounts, s));
}

/// A version that no local migration owns does not count against freshness.
pub proof fn global_stamps_keep_an_account_fresh(
    applied: Set<u32>,
    entries: Seq<TimelineEntry>,
    version: u32,
)
    requires
        is_fresh(applied, entries),
        !local_versions_of(entries).contains(version),
    ensures
        is_fresh(applied.insert(version), entries),
{
}

} // verus!
