//! The unified migration timeline, and what is due on it.
//!
//! Global migrations run on the shared database and local ones on each
//! account's database, but both kinds take their versions from one sequence.
//! Everything here works on versions: which are registered, which the
//! tracking tables already record, and in what order the rest has to run.

use std::collections::HashSet;

use vstd::prelude::*;
use vstd::string::StringExecFns;

use crate::whitenoise::text::{decimal, decimal_text};

verus! {

/// The place of a global migration on the timeline.
#[derive(Clone, Copy, PartialEq, Eq, Structural, Debug)]
pub struct GlobalSlot {
    pub version: u32,
}

/// The place of a local migration on the timeline.
#[derive(Clone, Copy, PartialEq, Eq, Structural, Debug)]
pub struct LocalSlot {
    pub version: u32,
    /// Whether the migration concerns only accounts on which no local
    /// migration has run yet.
    pub for_new_accounts_only: bool,
}

/// One entry in the unified migration timeline.
#[derive(Clone, Copy, PartialEq, Eq, Structural, Debug)]
pub enum TimelineEntry {
    Global(GlobalSlot),
    Local(LocalSlot),
}

impl TimelineEntry {
    pub open spec fn spec_version(self) -> u32 {
        match self {
            TimelineEntry::Global(g) => g.version,
            TimelineEntry::Local(l) => l.version,
        }
    }

    pub fn version(&self) -> (v: u32)
        ensures
            v == self.spec_version(),
    {
        match self {
            TimelineEntry::Global(g) => g.version,
            TimelineEntry::Local(l) => l.version,
        }
    }

    /// The kind of the migration in words.
    pub open spec fn spec_kind(self) -> Seq<char> {
        match self {
            TimelineEntry::Global(_) => "global"@,
            TimelineEntry::Local(_) => "local"@,
        }
    }

    pub fn kind_str(&self) -> (s: &'static str)
        ensures
            s@ == self.spec_kind(),
    {
        match self {
            TimelineEntry::Global(_) => "global",
            TimelineEntry::Local(_) => "local",
        }
    }
}

/// Where a migration step is applied.
#[derive(Clone, Copy, PartialEq, Eq, Structural, Debug)]
pub enum Target {
    /// The shared database.
    Shared,
    /// The account database at this position in the list of accounts.
    Account(usize),
}

/// One migration to apply to one database.
#[derive(Clone, Copy, PartialEq, Eq, Structural, Debug)]
pub struct Step {
    pub version: u32,
    pub target: Target,
}

impl Step {
    /// Execution order: by version, and for one version by account.
    pub open spec fn precedes(self, other: Step) -> bool {
        ||| self.version < other.version
        ||| {
            &&& self.version == other.version
            &&& self.target matches Target::Account(a)
            &&& other.target matches Target::Account(b)
            &&& a < b
        }
    }
}

/// The versions of `entries` are pairwise different.
pub open spec fn versions_unique(entries: Seq<TimelineEntry>) -> bool {
    forall|i: int, j: int|
        0 <= i < j < entries.len() ==> entries[i].spec_version() != entries[j].spec_version()
}

/// The versions of `entries` rise strictly.
pub open spec fn versions_rise(entries: Seq<TimelineEntry>) -> bool {
    forall|i: int, j: int|
        0 <= i < j < entries.len() ==> entries[i].spec_version() < entries[j].spec_version()
}

/// The registered migrations in registration order: first the globals, then the locals.
pub open spec fn registered(globals: Seq<GlobalSlot>, locals: Seq<LocalSlot>) -> Seq<TimelineEntry> {
    globals.map_values(|g: GlobalSlot| TimelineEntry::Global(g))
        + locals.map_values(|l: LocalSlot| TimelineEntry::Local(l))
}

/// The versions that belong to local migrations.
pub open spec fn local_versions_of(entries: Seq<TimelineEntry>) -> Set<u32> {
    Set::new(
        |v: u32| exists|i: int|
            0 <= i < entries.len() && (#[trigger] entries[i]) is Local && entries[i].spec_version() == v,
    )
}

/// An account is fresh when its tracking table records no local migration.
pub open spec fn is_fresh(applied: Set<u32>, entries: Seq<TimelineEntry>) -> bool {
    applied.disjoint(local_versions_of(entries))
}

/// Whether `entry` still has to run on an account whose tracking table records `applied`.
pub open spec fn local_due(slot: LocalSlot, applied: Set<u32>, fresh: bool) -> bool {
    !applied.contains(slot.version) && (slot.for_new_accounts_only ==> fresh)
}

/// Whether `step` is one that a run has to perform: `shared` and `accounts`
/// are what the tracking tables recorded when the run began.
pub open spec fn step_due(
    entries: Seq<TimelineEntry>,
    shared: Set<u32>,
    accounts: Seq<Set<u32>>,
    step: Step,
) -> bool {
    match step.target {
        Target::Shared => !shared.contains(step.version) && entries.contains(
            TimelineEntry::Global(GlobalSlot { version: step.version }),
        ),
        Target::Account(k) => k < accounts.len() && exists|slot: LocalSlot|
            slot.version == step.version && #[trigger] entries.contains(TimelineEntry::Local(slot))
                && local_due(slot, accounts[k as int], is_fresh(accounts[k as int], entries)),
    }
}

/// `steps` holds what is due and nothing else, once each and in execution order.
pub open spec fn is_plan(
    steps: Seq<Step>,
    entries: Seq<TimelineEntry>,
    shared: Set<u32>,
    accounts: Seq<Set<u32>>,
) -> bool {
    &&& forall|i: int, j: int| 0 <= i < j < steps.len() ==> (#[trigger] steps[i]).precedes(#[trigger] steps[j])
    &&& forall|s: Step| #[trigger] steps.contains(s) <==> step_due(entries, shared, accounts, s)
}

/// The sets that a list of tracking tables records.
pub open spec fn applied_views(accounts: Seq<HashSet<u32>>) -> Seq<Set<u32>> {
    accounts.map_values(|a: HashSet<u32>| a@)
}

/// Two migrations that claim one version.
#[derive(Clone, Copy, PartialEq, Eq, Structural, Debug)]
pub struct DuplicateVersion {
    /// The entry registered first.
    pub previous: TimelineEntry,
    /// The later entry with the same version.
    pub duplicate: TimelineEntry,
}

/// `d` is the first clash met when the entries are registered in order.
pub open spec fn first_duplicate(entries: Seq<TimelineEntry>, d: DuplicateVersion) -> bool {
    exists|i: int, j: int|
        0 <= i < j < entries.len() && #[trigger] entries[i] == d.previous && #[trigger] entries[j]
            == d.duplicate && entries[i].spec_version() == entries[j].spec_version()
            && versions_unique(entries.take(j))
}

impl DuplicateVersion {
    pub open spec fn spec_message(self) -> Seq<char> {
        "duplicate migration version "@ + decimal(self.duplicate.spec_version() as nat)
            + ": already registered as "@ + self.previous.spec_kind() + ", now also as "@
            + self.duplicate.spec_kind()
    }

    /// The clash in words.
    pub fn message(&self) -> (s: String)
        ensures
            s@ == self.spec_message(),
    {
        let mut s = String::from_str("duplicate migration version ");
        s.append(decimal_text(self.duplicate.version() as u64).as_str());
        s.append(": already registered as ");
        s.append(self.previous.kind_str());
        s.append(", now also as ");
        s.append(self.duplicate.kind_str());
        s
    }
}

/// The versions that a tracking table records, as it stores them.
pub open spec fn recorded_versions(rows: Seq<i64>) -> Set<u32> {
    Set::new(|v: u32| exists|i: int| 0 <= i < rows.len() && #[trigger] rows[i] as u32 == v)
}

/// Reads the versions that a tracking table records.
pub fn load_applied(rows: &Vec<i64>) -> (applied: HashSet<u32>)
    ensures
        applied@ == recorded_versions(rows@),
{
    broadcast use vstd::std_specs::hash::group_hash_axioms;

    let mut applied: HashSet<u32> = HashSet::new();
    let mut i: usize = 0;
    assert(applied@ =~= recorded_versions(rows@.take(0)));
    while i < rows.len()
        invariant
            i <= rows.len(),
            applied@ == recorded_versions(rows@.take(i as int)),
        decreases rows.len() - i,
    {
        let ghost taken = rows@.take(i as int);
        let ghost next = rows@.take(i + 1);
        applied.insert(rows[i] as u32);
        assert forall|v: u32| recorded_versions(next).contains(v) <==> recorded_versions(
            taken,
        ).insert(rows[i as int] as u32).contains(v) by {
            if recorded_versions(taken).contains(v) {
                let k = choose|k: int| 0 <= k < taken.len() && #[trigger] taken[k] as u32 == v;
                assert(next[k] as u32 == v);
            }
            if v == rows[i as int] as u32 {
                assert(next[i as int] as u32 == v);
            }
            if recorded_versions(next).contains(v) && v != rows[i as int] as u32 {
                let k = choose|k: int| 0 <= k < next.len() && #[trigger] next[k] as u32 == v;
                assert(taken[k] as u32 == v);
            }
        }
        assert(applied@ =~= recorded_versions(next));
        i = i + 1;
    }
    assert(rows@.take(rows.len() as int) =~= rows@);
    applied
}

/// The registered entries as one list, the globals first.
fn register(globals: &Vec<GlobalSlot>, locals: &Vec<LocalSlot>) -> (entries: Vec<TimelineEntry>)
    ensures
        entries@ == registered(globals@, locals@),
{
    let mut entries: Vec<TimelineEntry> = Vec::new();
    let mut i: usize = 0;
    while i < globals.len()
        invariant
            i <= globals.len(),
            entries.len() == i,
            forall|k: int| 0 <= k < i ==> entries[k] == TimelineEntry::Global(globals[k]),
        decreases globals.len() - i,
    {
        entries.push(TimelineEntry::Global(globals[i]));
        i = i + 1;
    }
    let mut j: usize = 0;
    while j < locals.len()
        invariant
            j <= locals.len(),
            entries.len() == globals.len() + j,
            forall|k: int| 0 <= k < globals.len() ==> entries[k] == TimelineEntry::Global(globals[k]),
            forall|k: int|
                globals.len() <= k < globals.len() + j ==> entries[k] == TimelineEntry::Local(
                    locals[k - globals.len()],
                ),
        decreases locals.len() - j,
    {
        entries.push(TimelineEntry::Local(locals[j]));
        j = j + 1;
    }
    assert(entries@ =~= registered(globals@, locals@));
    entries
}

/// The first two registered migrations that share a version, if any do.
pub fn find_duplicate_version(globals: &Vec<GlobalSlot>, locals: &Vec<LocalSlot>) -> (found: Option<
    DuplicateVersion,
>)
    ensures
        found is None <==> versions_unique(registered(globals@, locals@)),
        found matches Some(d) ==> first_duplicate(registered(globals@, locals@), d),
{
    let entries = register(globals, locals);
    let mut j: usize = 0;
    while j < entries.len()
        invariant
            j <= entries.len(),
            entries@ == registered(globals@, locals@),
            versions_unique(entries@.take(j as int)),
        decreases entries.len() - j,
    {
        let mut i: usize = 0;
        while i < j
            invariant
                i <= j < entries.len(),
                entries@ == registered(globals@, locals@),
                versions_unique(entries@.take(j as int)),
                forall|k: int| 0 <= k < i ==> entries[k].spec_version() != entries[j as int].spec_version(),
            decreases j - i,
        {
            if entries[i].version() == entries[j].version() {
                let d = DuplicateVersion { previous: entries[i], duplicate: entries[j] };
                assert(entries@[i as int] == d.previous && entries@[j as int] == d.duplicate);
                return Some(d);
            }
            i = i + 1;
        }
        let ghost before = entries@.take(j as int);
        let ghost upto = entries@.take(j + 1);
        assert forall|a: int, b: int| 0 <= a < b < upto.len() implies upto[a].spec_version()
            != upto[b].spec_version() by {
            if b < j {
                assert(before[a].spec_version() != before[b].spec_version());
            }
        }
        j = j + 1;
    }
    assert(entries@.take(entries.len() as int) =~= entries@);
    None
}

/// Puts `entry` into a list with rising versions, keeping them rising.
fn insert_by_version(sorted: &mut Vec<TimelineEntry>, entry: TimelineEntry)
    requires
        versions_rise(old(sorted)@),
        forall|i: int|
            0 <= i < old(sorted).len() ==> (#[trigger] old(sorted)[i]).spec_version() != entry.spec_version(),
    ensures
        versions_rise(final(sorted)@),
        final(sorted).len() == old(sorted).len() + 1,
        forall|e: TimelineEntry|
            final(sorted)@.contains(e) <==> (e == entry || old(sorted)@.contains(e)),
{
    let mut at: usize = 0;
    while at < sorted.len() && sorted[at].version() < entry.version()
        invariant
            at <= sorted.len(),
            sorted@ == old(sorted)@,
            forall|i: int| 0 <= i < at ==> (#[trigger] sorted[i]).spec_version() < entry.spec_version(),
        decreases sorted.len() - at,
    {
        at = at + 1;
    }
    sorted.insert(at, entry);
    let ghost before = old(sorted)@;
    let ghost after = sorted@;
    assert(after == before.insert(at as int, entry));
    assert forall|e: TimelineEntry| after.contains(e) <==> (e == entry || before.contains(e)) by {
        if e == entry {
            assert(after[at as int] == e);
        }
        if before.contains(e) {
            let i = choose|i: int| 0 <= i < before.len() && before[i] == e;
            if i < at {
                assert(after[i] == e);
            } else {
                assert(after[i + 1] == e);
            }
        }
        if after.contains(e) && e != entry {
            let i = choose|i: int| 0 <= i < after.len() && after[i] == e;
            if i < at {
                assert(before[i] == e);
            } else {
                assert(before[i - 1] == e);
            }
        }
    }
}

/// Walks a single ordered timeline of migrations across the shared database
/// and any number of account databases.
///
/// Both kinds of migration run in strict version order. A local migration may
/// therefore rely on schema that an earlier global added, even where a later
/// global removes it again.
pub struct Migrator {
    timeline: Vec<TimelineEntry>,
}

impl View for Migrator {
    type V = Seq<TimelineEntry>;

    closed spec fn view(&self) -> Seq<TimelineEntry> {
        self.timeline@
    }
}

impl Migrator {
    #[verifier::type_invariant]
    spec fn wf(self) -> bool {
        versions_rise(self.timeline@)
    }

    /// Builds the timeline from the registered global and local migrations.
    ///
    /// Versions must be unique over both kinds; [`find_duplicate_version`]
    /// finds the clash where they are not.
    pub fn new(globals: Vec<GlobalSlot>, locals: Vec<LocalSlot>) -> (m: Migrator)
        requires
            versions_unique(registered(globals@, locals@)),
        ensures
            versions_rise(m@),
            m@.len() == globals.len() + locals.len(),
            forall|e: TimelineEntry| m@.contains(e) <==> registered(globals@, locals@).contains(e),
    {
        let entries = register(&globals, &locals);
        let mut timeline: Vec<TimelineEntry> = Vec::new();
        let mut n: usize = 0;
        while n < entries.len()
            invariant
                n <= entries.len(),
                entries@ == registered(globals@, locals@),
                versions_unique(entries@),
                versions_rise(timeline@),
                timeline.len() == n,
                forall|e: TimelineEntry| timeline@.contains(e) <==> entries@.take(n as int).contains(e),
            decreases entries.len() - n,
        {
            let entry = entries[n];
            let ghost before = timeline@;
            assert forall|i: int| 0 <= i < before.len() implies (#[trigger] before[i]).spec_version()
                != entry.spec_version() by {
                assert(before.contains(before[i]));
                let k = choose|k: int| 0 <= k < n && entries@.take(n as int)[k] == before[i];
                assert(entries@[k] == before[i]);
            }
            insert_by_version(&mut timeline, entry);
            proof {
                let taken = entries@.take(n as int);
                let next = entries@.take(n + 1);
                assert(next =~= taken.push(entry));
                assert forall|e: TimelineEntry| timeline@.contains(e) <==> next.contains(e) by {
                    if next.contains(e) && e != entry {
                        let k = choose|k: int| 0 <= k < next.len() && next[k] == e;
                        assert(taken[k] == e);
                    }
                    if taken.contains(e) {
                        let k = choose|k: int| 0 <= k < taken.len() && taken[k] == e;
                        assert(next[k] == e);
                    }
                    assert(next[n as int] == entry);
                }
            }
            n = n + 1;
        }
        assert(entries@.take(entries.len() as int) =~= entries@);
        Migrator { timeline }
    }

    /// The migrations that are due, in the order in which they have to run.
    ///
    /// `shared` is what the shared tracking table records. With an account,
    /// its own tracking table decides on the local migrations; without one
    /// they are left out.
    pub fn run(&self, shared: &HashSet<u32>, account: Option<&HashSet<u32>>) -> (steps: Vec<Step>)
        ensures
            account is None ==> is_plan(steps@, self@, shared@, Seq::empty()),
            account matches Some(applied) ==> is_plan(steps@, self@, shared@, seq![applied@]),
    {
        let mut accounts: Vec<&HashSet<u32>> = Vec::new();
        if let Some(applied) = account {
            accounts.push(applied);
        }
        let steps = self.plan(shared, &accounts);
        proof {
            let views = accounts@.map_values(|a: &HashSet<u32>| a@);
            match account {
                Some(applied) => {
                    assert(views =~= seq![applied@]);
                },
                None => {
                    assert(views =~= Seq::empty());
                },
            }
        }
        steps
    }

    /// The migrations that are due on the shared database and on every
    /// account, in lockstep: a local migration is applied to all accounts
    /// before the next entry of the timeline is reached.
    pub fn run_all(&self, shared: &HashSet<u32>, accounts: &Vec<HashSet<u32>>) -> (steps: Vec<Step>)
        ensures
            is_plan(steps@, self@, shared@, applied_views(accounts@)),
    {
        let mut refs: Vec<&HashSet<u32>> = Vec::new();
        let mut i: usize = 0;
        while i < accounts.len()
            invariant
                i <= accounts.len(),
                refs.len() == i,
                forall|k: int| 0 <= k < i ==> *refs[k] == accounts[k],
            decreases accounts.len() - i,
        {
            refs.push(&accounts[i]);
            i = i + 1;
        }
        assert(refs@.map_values(|a: &HashSet<u32>| a@) =~= applied_views(accounts@));
        self.plan(shared, &refs)
    }

    /// Whether `applied` records no local migration of the timeline.
    fn fresh(&self, applied: &HashSet<u32>) -> (fresh: bool)
        ensures
            fresh == is_fresh(applied@, self@),
    {
        broadcast use vstd::std_specs::hash::group_hash_axioms;

        let mut i: usize = 0;
        while i < self.timeline.len()
            invariant
                i <= self.timeline.len(),
                self@ == self.timeline@,
                forall|k: int|
                    0 <= k < i && (#[trigger] self.timeline[k]) is Local ==> !applied@.contains(
                        self.timeline[k].spec_version(),
                    ),
            decreases self.timeline.len() - i,
        {
            if let TimelineEntry::Local(slot) = self.timeline[i] {
                if applied.contains(&slot.version) {
                    assert(self@[i as int] is Local);
                    assert(local_versions_of(self@).contains(slot.version));
                    return false;
                }
            }
            i = i + 1;
        }
        true
    }

    fn plan(&self, shared: &HashSet<u32>, accounts: &Vec<&HashSet<u32>>) -> (steps: Vec<Step>)
        ensures
            is_plan(steps@, self@, shared@, accounts@.map_values(|a: &HashSet<u32>| a@)),
    {
        broadcast use vstd::std_specs::hash::group_hash_axioms;

        proof {
            use_type_invariant(self);
        }
        let ghost views = accounts@.map_values(|a: &HashSet<u32>| a@);
        let ghost entries = self@;
        let mut fresh: Vec<bool> = Vec::new();
        let mut a: usize = 0;
        while a < accounts.len()
            invariant
                a <= accounts.len(),
                fresh.len() == a,
                entries == self@,
                views == accounts@.map_values(|a: &HashSet<u32>| a@),
                forall|k: int| 0 <= k < a ==> fresh[k] == is_fresh(views[k], entries),
            decreases accounts.len() - a,
        {
            fresh.push(self.fresh(accounts[a]));
            a = a + 1;
        }
        let mut steps: Vec<Step> = Vec::new();
        let mut n: usize = 0;
        while n < self.timeline.len()
            invariant
                n <= self.timeline.len(),
                entries == self@,
                self@ == self.timeline@,
                versions_rise(entries),
                views == accounts@.map_values(|a: &HashSet<u32>| a@),
                fresh.len() == accounts.len(),
                forall|k: int| 0 <= k < accounts.len() ==> fresh[k] == is_fresh(views[k], entries),
                ordered(steps@),
                forall|s: Step| #[trigger]
                    steps@.contains(s) <==> due_among(entries, n as int, shared@, views, s),
            decreases self.timeline.len() - n,
        {
            let entry = self.timeline[n];
            let ghost before = steps@;
            match entry {
                TimelineEntry::Global(slot) => {
                    if !shared.contains(&slot.version) {
                        steps.push(Step { version: slot.version, target: Target::Shared });
                    }
                    proof {
                        lemma_append_global(entries, n as int, shared@, views, before, steps@);
                    }
                },
                TimelineEntry::Local(slot) => {
                    let mut k: usize = 0;
                    assert(steps@ =~= before + due_accounts(slot, views, entries, 0));
                    while k < accounts.len()
                        invariant
                            k <= accounts.len(),
                            views == accounts@.map_values(|a: &HashSet<u32>| a@),
                            fresh.len() == accounts.len(),
                            forall|j: int|
                                0 <= j < accounts.len() ==> fresh[j] == is_fresh(views[j], entries),
                            steps@ == before + due_accounts(slot, views, entries, k as int),
                        decreases accounts.len() - k,
                    {
                        let ghost upto = due_accounts(slot, views, entries, k as int);
                        if !accounts[k].contains(&slot.version) && (!slot.for_new_accounts_only
                            || fresh[k]) {
                            steps.push(Step { version: slot.version, target: Target::Account(k) });
                            assert(steps@ =~= before + upto.push(
                                Step { version: slot.version, target: Target::Account(k) },
                            ));
                        }
                        k = k + 1;
                    }
                    proof {
                        lemma_append_local(entries, n as int, slot, shared@, views, before, steps@);
                    }
                },
            }
            n = n + 1;
        }
        proof {
            lemma_due_among_all(entries, shared@, views);
        }
        steps
    }
}

spec fn ordered(steps: Seq<Step>) -> bool {
    forall|i: int, j: int|
        0 <= i < j < steps.len() ==> (#[trigger] steps[i]).precedes(#[trigger] steps[j])
}

/// `step` is due because of `entry`.
spec fn due_for(
    entry: TimelineEntry,
    entries: Seq<TimelineEntry>,
    shared: Set<u32>,
    accounts: Seq<Set<u32>>,
    step: Step,
) -> bool {
    &&& step.version == entry.spec_version()
    &&& match entry {
        TimelineEntry::Global(slot) => step.target is Shared && !shared.contains(slot.version),
        TimelineEntry::Local(slot) => step.target matches Target::Account(k) && k < accounts.len()
            && local_due(slot, accounts[k as int], is_fresh(accounts[k as int], entries)),
    }
}

/// `step` is due because of one of the first `n` entries.
spec fn due_among(
    entries: Seq<TimelineEntry>,
    n: int,
    shared: Set<u32>,
    accounts: Seq<Set<u32>>,
    step: Step,
) -> bool {
    exists|i: int| 0 <= i < n && due_for(#[trigger] entries[i], entries, shared, accounts, step)
}

/// The steps that a local migration causes on the first `n` accounts.
spec fn due_accounts(
    slot: LocalSlot,
    accounts: Seq<Set<u32>>,
    entries: Seq<TimelineEntry>,
    n: int,
) -> Seq<Step>
    decreases n,
{
    if n <= 0 {
        Seq::empty()
    } else {
        let rest = due_accounts(slot, accounts, entries, n - 1);
        if local_due(slot, accounts[n - 1], is_fresh(accounts[n - 1], entries)) {
            rest.push(Step { version: slot.version, target: Target::Account((n - 1) as usize) })
        } else {
            rest
        }
    }
}

proof fn lemma_due_accounts(
    slot: LocalSlot,
    accounts: Seq<Set<u32>>,
    entries: Seq<TimelineEntry>,
    n: int,
)
    requires
        0 <= n <= accounts.len() <= usize::MAX,
    ensures
        ordered(due_accounts(slot, accounts, entries, n)),
        forall|i: int|
            0 <= i < due_accounts(slot, accounts, entries, n).len() ==> {
                let s = #[trigger] due_accounts(slot, accounts, entries, n)[i];
                &&& s.version == slot.version
                &&& s.target matches Target::Account(k)
                &&& k < n
                &&& local_due(slot, accounts[k as int], is_fresh(accounts[k as int], entries))
            },
        forall|k: int|
            0 <= k < n && local_due(slot, #[trigger] accounts[k], is_fresh(accounts[k], entries))
                ==> due_accounts(slot, accounts, entries, n).contains(
                Step { version: slot.version, target: Target::Account(k as usize) },
            ),
    decreases n,
{
    if n > 0 {
        lemma_due_accounts(slot, accounts, entries, n - 1);
        let rest = due_accounts(slot, accounts, entries, n - 1);
        let all = due_accounts(slot, accounts, entries, n);
        assert forall|k: int|
            0 <= k < n && local_due(slot, #[trigger] accounts[k], is_fresh(accounts[k], entries)) implies all.contains(
            Step { version: slot.version, target: Target::Account(k as usize) },
        ) by {
            let s = Step { version: slot.version, target: Target::Account(k as usize) };
            if k == n - 1 {
                assert(all[all.len() - 1] == s);
            } else {
                assert(rest.contains(s));
                let i = choose|i: int| 0 <= i < rest.len() && rest[i] == s;
                assert(all[i] == s);
            }
        }
    }
}

proof fn lemma_append_global(
    entries: Seq<TimelineEntry>,
    n: int,
    shared: Set<u32>,
    accounts: Seq<Set<u32>>,
    before: Seq<Step>,
    after: Seq<Step>,
)
    requires
        0 <= n < entries.len(),
        versions_rise(entries),
        entries[n] is Global,
        ordered(before),
        forall|s: Step| #[trigger]
            before.contains(s) <==> due_among(entries, n, shared, accounts, s),
        after == (if shared.contains(entries[n].spec_version()) {
            before
        } else {
            before.push(Step { version: entries[n].spec_version(), target: Target::Shared })
        }),
    ensures
        ordered(after),
        forall|s: Step| #[trigger]
            after.contains(s) <==> due_among(entries, n + 1, shared, accounts, s),
{
    let v = entries[n].spec_version();
    let new = Step { version: v, target: Target::Shared };
    assert forall|i: int| 0 <= i < before.len() implies (#[trigger] before[i]).version < v by {
        assert(before.contains(before[i]));
        let k = choose|k: int|
            0 <= k < n && due_for(#[trigger] entries[k], entries, shared, accounts, before[i]);
        assert(entries[k].spec_version() < v);
    }
    assert forall|s: Step| #[trigger] after.contains(s) <==> due_among(
        entries,
        n + 1,
        shared,
        accounts,
        s,
    ) by {
        if after.contains(s) {
            let i = choose|i: int| 0 <= i < after.len() && after[i] == s;
            if i < before.len() {
                assert(before[i] == s);
                assert(before.contains(s));
            } else {
                assert(due_for(entries[n], entries, shared, accounts, s));
            }
        }
        if due_among(entries, n + 1, shared, accounts, s) {
            let k = choose|k: int|
                0 <= k < n + 1 && due_for(#[trigger] entries[k], entries, shared, accounts, s);
            if k < n {
                assert(before.contains(s));
                let i = choose|i: int| 0 <= i < before.len() && before[i] == s;
                assert(after[i] == s);
            } else {
                assert(s == new);
                assert(after[before.len() as int] == s);
            }
        }
    }
}

proof fn lemma_append_local(
    entries: Seq<TimelineEntry>,
    n: int,
    slot: LocalSlot,
    shared: Set<u32>,
    accounts: Seq<Set<u32>>,
    before: Seq<Step>,
    after: Seq<Step>,
)
    requires
        0 <= n < entries.len(),
        accounts.len() <= usize::MAX,
        versions_rise(entries),
        entries[n] == TimelineEntry::Local(slot),
        ordered(before),
        forall|s: Step| #[trigger]
            before.contains(s) <==> due_among(entries, n, shared, accounts, s),
        after == before + due_accounts(slot, accounts, entries, accounts.len() as int),
    ensures
        ordered(after),
        forall|s: Step| #[trigger]
            after.contains(s) <==> due_among(entries, n + 1, shared, accounts, s),
{
    let v = slot.version;
    let new = due_accounts(slot, accounts, entries, accounts.len() as int);
    lemma_due_accounts(slot, accounts, entries, accounts.len() as int);
    assert forall|i: int| 0 <= i < before.len() implies (#[trigger] before[i]).version < v by {
        assert(before.contains(before[i]));
        let k = choose|k: int|
            0 <= k < n && due_for(#[trigger] entries[k], entries, shared, accounts, before[i]);
        assert(entries[k].spec_version() < entries[n].spec_version());
    }
    assert forall|i: int, j: int| 0 <= i < j < after.len() implies (#[trigger] after[i]).precedes(
        #[trigger] after[j],
    ) by {
        if j >= before.len() {
            assert(after[j] == new[j - before.len()]);
            if i >= before.len() {
                assert(after[i] == new[i - before.len()]);
            }
        }
    }
    assert forall|s: Step| #[trigger] after.contains(s) <==> due_among(
        entries,
        n + 1,
        shared,
        accounts,
        s,
    ) by {
        if after.contains(s) {
            let i = choose|i: int| 0 <= i < after.len() && after[i] == s;
            if i < before.len() {
                assert(before[i] == s);
                assert(before.contains(s));
            } else {
                assert(new[i - before.len()] == s);
                assert(due_for(entries[n], entries, shared, accounts, s));
            }
        }
        if due_among(entries, n + 1, shared, accounts, s) {
            let k = choose|k: int|
                0 <= k < n + 1 && due_for(#[trigger] entries[k], entries, shared, accounts, s);
            if k < n {
                assert(before.contains(s));
                let i = choose|i: int| 0 <= i < before.len() && before[i] == s;
                assert(after[i] == s);
            } else {
                let a = s.target->Account_0;
                assert(local_due(slot, accounts[a as int], is_fresh(accounts[a as int], entries)));
                assert(new.contains(s));
                let i = choose|i: int| 0 <= i < new.len() && new[i] == s;
                assert(after[before.len() + i] == s);
            }
        }
    }
}

proof fn lemma_due_among_all(
    entries: Seq<TimelineEntry>,
    shared: Set<u32>,
    accounts: Seq<Set<u32>>,
)
    ensures
        forall|s: Step| #[trigger]
            due_among(entries, entries.len() as int, shared, accounts, s) <==> step_due(
                entries,
                shared,
                accounts,
                s,
            ),
{
    assert forall|s: Step| #[trigger]
        due_among(entries, entries.len() as int, shared, accounts, s) <==> step_due(
        entries,
        shared,
        accounts,
        s,
    ) by {
        if due_among(entries, entries.len() as int, shared, accounts, s) {
            let i = choose|i: int|
                0 <= i < entries.len() && due_for(#[trigger] entries[i], entries, shared, accounts, s);
            assert(entries.contains(entries[i]));
            match entries[i] {
                TimelineEntry::Global(slot) => {
                    assert(slot == GlobalSlot { version: s.version });
                },
                TimelineEntry::Local(slot) => {
                    assert(entries.contains(TimelineEntry::Local(slot)));
                },
            }
        }
        if step_due(entries, shared, accounts, s) {
            match s.target {
                Target::Shared => {
                    let e = TimelineEntry::Global(GlobalSlot { version: s.version });
                    let i = choose|i: int| 0 <= i < entries.len() && entries[i] == e;
                    assert(due_for(entries[i], entries, shared, accounts, s));
                },
                Target::Account(k) => {
                    let slot = choose|slot: LocalSlot|
                        slot.version == s.version && #[trigger] entries.contains(
                            TimelineEntry::Local(slot),
                        ) && local_due(
                            slot,
                            accounts[k as int],
                            is_fresh(accounts[k as int], entries),
                        );
                    let i = choose|i: int|
                        0 <= i < entries.len() && entries[i] == TimelineEntry::Local(slot);
                    assert(due_for(entries[i], entries, shared, accounts, s));
                },
            }
        }
    }
}

} // verus!
