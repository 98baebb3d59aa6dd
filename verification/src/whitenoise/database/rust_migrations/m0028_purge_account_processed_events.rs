//! Drops the account-scoped processed events from the shared database. They
//! moved into the account databases before.

use vstd::prelude::*;

use crate::whitenoise::database::rust_migrations::migration::GlobalMigration;
use crate::whitenoise::database::rust_migrations::table::Owned;

verus! {

pub struct Migration;

impl GlobalMigration for Migration {
    open spec fn spec_version(&self) -> u32 {
        28
    }

    open spec fn spec_description(&self) -> Seq<char> {
        "Purge account-scoped rows from shared processed_events (moved at v21)"@
    }

    fn version(&self) -> (v: u32) {
        28
    }

    fn description(&self) -> (d: &'static str) {
        "Purge account-scoped rows from shared processed_events (moved at v21)"
    }
}

/// The rows that belong to no account, in order.
pub open spec fn unowned<R>(rows: Seq<Owned<R>>) -> Seq<Owned<R>> {
    rows.filter(|r: Owned<R>| r.account_pubkey is None)
}

impl Migration {
    /// Keeps the rows that belong to no account.
    pub fn run_global<R>(&self, rows: Vec<Owned<R>>) -> (kept: Vec<Owned<R>>)
        ensures
            kept@ == unowned(rows@),
    {
        let mut kept: Vec<Owned<R>> = Vec::new();
        let ghost all = rows@;
        let ghost pred = |r: Owned<R>| r.account_pubkey is None;
        assert(all.take(0) =~= Seq::empty());
        assert(kept@ =~= unowned(all.take(0))) by {
            reveal(Seq::filter);
        }
        for row in it: rows
            invariant
                it.seq() == all,
                pred == (|r: Owned<R>| r.account_pubkey is None),
                kept@ == unowned(all.take(it.index())),
        {
            let ghost next = all.take(it.index() + 1);
            assert(next.drop_last() =~= all.take(it.index()));
            assert(unowned(next) == (if pred(next.last()) {
                unowned(next.drop_last()).push(next.last())
            } else {
                unowned(next.drop_last())
            })) by {
                reveal(Seq::filter);
            }
            if row.account_pubkey.is_none() {
                kept.push(row);
            }
        }
        assert(all.take(all.len() as int) =~= all);
        kept
    }
}

/// A row is kept exactly if it belongs to no account, and the order stays.
pub proof fn rows_of_accounts_are_purged<R>(rows: Seq<Owned<R>>, row: Owned<R>)
    ensures
        unowned(Seq::<Owned<R>>::empty()) == Seq::<Owned<R>>::empty(),
        row.account_pubkey is None ==> unowned(rows.push(row)) == unowned(rows).push(row),
        row.account_pubkey is Some ==> unowned(rows.push(row)) == unowned(rows),
{
    reveal(Seq::filter);
    assert(rows.push(row).drop_last() =~= rows);
}

} // verus!
