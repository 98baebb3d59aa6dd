//! Moves the follow lists into the account databases, by public key.

use vstd::prelude::*;

use crate::whitenoise::database::rust_migrations::migration::LocalMigration;
use crate::whitenoise::database::rust_migrations::table::{
    find_key, find_number, insert_all, key_numbered, number_of, try_insert_all, NumberedKey, Row,
};

verus! {

pub struct Migration;

impl LocalMigration for Migration {
    open spec fn spec_version(&self) -> u32 {
        22
    }

    open spec fn spec_description(&self) -> Seq<char> {
        "Move account_follows into per-account database"@
    }

    open spec fn spec_for_new_accounts_only(&self) -> bool {
        false
    }

    fn version(&self) -> (v: u32) {
        22
    }

    fn description(&self) -> (d: &'static str) {
        "Move account_follows into per-account database"
    }

    fn for_new_accounts_only(&self) -> (b: bool) {
        false
    }
}

/// A follow before the migration: who follows whom, by number.
#[derive(Debug)]
pub struct NumberedFollow {
    pub account_id: i64,
    pub user_id: i64,
    pub created_at: i64,
    pub updated_at: i64,
}

/// A row of the account's own `account_follows` table.
#[derive(Debug)]
pub struct FollowRow {
    pub pubkey: String,
    pub created_at: i64,
    pub updated_at: i64,
}

impl Row for FollowRow {
    open spec fn clashes(&self, other: &Self) -> bool {
        self.pubkey@ == other.pubkey@
    }

    open spec fn admissible(&self) -> bool {
        true
    }

    fn clashes_with(&self, other: &Self) -> (r: bool) {
        self.pubkey == other.pubkey
    }

    fn is_admissible(&self) -> (r: bool) {
        true
    }
}

/// The follows of the account numbered `account_id` whose users are known, in order.
pub open spec fn follows_of(follows: Seq<NumberedFollow>, users: Seq<NumberedKey>, account_id: i64) -> Seq<
    FollowRow,
>
    decreases follows.len(),
{
    if follows.len() == 0 {
        Seq::empty()
    } else {
        let rest = follows_of(follows.drop_last(), users, account_id);
        let follow = follows.last();
        match key_numbered(users, follow.user_id) {
            Some(pubkey) if follow.account_id == account_id => rest.push(
                FollowRow {
                    pubkey,
                    created_at: follow.created_at,
                    updated_at: follow.updated_at,
                },
            ),
            _ => rest,
        }
    }
}

/// The follows of an account, where it is known and the table still exists.
pub open spec fn account_follows(
    follows: Option<Vec<NumberedFollow>>,
    users: Seq<NumberedKey>,
    accounts: Seq<NumberedKey>,
    account: Seq<char>,
) -> Seq<FollowRow> {
    match (follows, number_of(accounts, account)) {
        (Some(follows), Some(id)) => follows_of(follows@, users, id),
        _ => Seq::empty(),
    }
}

impl Migration {
    /// Copies the account's follows out of the shared table, where it still exists.
    pub fn run_local(
        &self,
        shared: Option<Vec<NumberedFollow>>,
        users: &Vec<NumberedKey>,
        accounts: &Vec<NumberedKey>,
        account_pubkey: &str,
        local: &mut Vec<FollowRow>,
    )
        ensures
            final(local)@ == insert_all(
                old(local)@,
                account_follows(shared, users@, accounts@, account_pubkey@),
            ),
    {
        let follows = match shared {
            Some(follows) => follows,
            None => {
                return;
            },
        };
        let account_id = match find_number(accounts, account_pubkey) {
            Some(id) => id,
            None => {
                return;
            },
        };
        let mut mine: Vec<FollowRow> = Vec::new();
        let mut i: usize = 0;
        assert(mine@ =~= follows_of(follows@.take(0), users@, account_id));
        while i < follows.len()
            invariant
                i <= follows.len(),
                mine@ == follows_of(follows@.take(i as int), users@, account_id),
            decreases follows.len() - i,
        {
            assert(follows@.take(i + 1).drop_last() =~= follows@.take(i as int));
            if follows[i].account_id == account_id {
                if let Some(pubkey) = find_key(users, follows[i].user_id) {
                    mine.push(
                        FollowRow {
                            pubkey,
                            created_at: follows[i].created_at,
                            updated_at: follows[i].updated_at,
                        },
                    );
                }
            }
            i = i + 1;
        }
        assert(follows@.take(follows.len() as int) =~= follows@);
        try_insert_all(local, mine);
    }
}

} // verus!
