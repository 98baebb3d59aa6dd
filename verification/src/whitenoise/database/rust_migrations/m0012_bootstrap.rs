//! Sets up the database of a new account from a schema snapshot.
//!
//! The versions whose effect the snapshot already has are recorded along with
//! the bootstrap itself.

use vstd::prelude::*;

use crate::whitenoise::database::rust_migrations::migration::LocalMigration;
use std::collections::HashSet;

verus! {

pub struct Migration;

impl LocalMigration for Migration {
    open spec fn spec_version(&self) -> u32 {
        31
    }

    open spec fn spec_description(&self) -> Seq<char> {
        "Bootstrap account database schema"@
    }

    open spec fn spec_for_new_accounts_only(&self) -> bool {
        true
    }

    fn version(&self) -> (v: u32) {
        31
    }

    fn description(&self) -> (d: &'static str) {
        "Bootstrap account database schema"
    }

    fn for_new_accounts_only(&self) -> (b: bool) {
        true
    }
}

/// The local versions before the bootstrap whose effect the snapshot has.
pub open spec fn baseline() -> Seq<u32> {
    seq![17u32, 18, 19, 20, 21, 22, 29]
}

impl Migration {
    /// The description under which the baseline versions are recorded.
    pub fn stamp_description(&self) -> (d: &'static str)
        ensures
            d@ == "Auto-stamped by local bootstrap baseline"@,
    {
        "Auto-stamped by local bootstrap baseline"
    }

    /// The versions to record besides the bootstrap's own.
    pub fn stamped_versions(&self) -> (versions: Vec<u32>)
        ensures
            versions@ == baseline(),
    {
        let mut versions: Vec<u32> = Vec::new();
        versions.push(17);
        versions.push(18);
        versions.push(19);
        versions.push(20);
        versions.push(21);
        versions.push(22);
        versions.push(29);
        assert(versions@ =~= baseline());
        versions
    }

    /// Records the baseline in the account's tracking table.
    pub fn run_local(&self, applied: &mut HashSet<u32>)
        ensures
            final(applied)@ == old(applied)@.union(baseline().to_set()),
            forall|v: u32|
                final(applied)@.contains(v) <==> old(applied)@.contains(v) || 17 <= v <= 22 || v == 29,
    {
        broadcast use vstd::std_specs::hash::group_hash_axioms;

        let versions = self.stamped_versions();
        let mut i: usize = 0;
        assert(versions@.take(0).to_set() =~= Set::empty());
        assert(applied@ =~= old(applied)@.union(versions@.take(0).to_set()));
        while i < versions.len()
            invariant
                i <= versions.len(),
                applied@ == old(applied)@.union(versions@.take(i as int).to_set()),
            decreases versions.len() - i,
        {
            let ghost taken = versions@.take(i as int);
            let ghost next = versions@.take(i + 1);
            applied.insert(versions[i]);
            proof {
                assert(next =~= taken.push(versions[i as int]));
                assert forall|v: u32| next.to_set().contains(v) <==> taken.to_set().insert(
                    versions[i as int],
                ).contains(v) by {
                    if taken.contains(v) {
                        let k = choose|k: int| 0 <= k < taken.len() && taken[k] == v;
                        assert(next[k] == v);
                    }
                    if next.contains(v) && v != versions[i as int] {
                        let k = choose|k: int| 0 <= k < next.len() && next[k] == v;
                        assert(taken[k] == v);
                    }
                    assert(next[i as int] == versions[i as int]);
                }
                assert(applied@ =~= old(applied)@.union(next.to_set()));
            }
            i = i + 1;
        }
        assert(versions@.take(versions.len() as int) =~= versions@);
        assert forall|v: u32| #[trigger] applied@.contains(v) <==> old(applied)@.contains(v) || 17 <= v <= 22
            || v == 29 by {
            the_baseline_has_the_moved_tables(v);
        }
    }
}

/// The baseline holds the versions 17 to 22 and 29, and no other.
pub proof fn the_baseline_has_the_moved_tables(v: u32)
    ensures
        baseline().contains(v) <==> 17 <= v <= 22 || v == 29,
{
    let b = baseline();
    assert(b[0] == 17 && b[1] == 18 && b[2] == 19 && b[3] == 20 && b[4] == 21 && b[5] == 22 && b[6]
        == 29);
}

/// Every version of the baseline lies before the bootstrap.
pub proof fn baseline_precedes_bootstrap(i: int)
    requires
        0 <= i < baseline().len(),
    ensures
        baseline()[i] < Migration.spec_version(),
{
}

} // verus!
