//! Adds the platform and the fingerprint of group push tokens, where the table
//! does not have them yet.

use vstd::prelude::*;

use crate::whitenoise::database::rust_migrations::migration::LocalMigration;
use crate::whitenoise::text::{same_text, texts};

verus! {

pub struct Migration;

impl LocalMigration for Migration {
    open spec fn spec_version(&self) -> u32 {
        50
    }

    open spec fn spec_description(&self) -> Seq<char> {
        "Add Darkmatter push-token metadata"@
    }

    open spec fn spec_for_new_accounts_only(&self) -> bool {
        false
    }

    fn version(&self) -> (v: u32) {
        50
    }

    fn description(&self) -> (d: &'static str) {
        "Add Darkmatter push-token metadata"
    }

    fn for_new_accounts_only(&self) -> (b: bool) {
        false
    }
}

/// A column that the migration may have to add.
#[derive(Clone, Copy, PartialEq, Eq, Structural, Debug)]
pub enum NewColumn {
    Platform,
    TokenFingerprint,
}

/// Whether the table has a column called `name`.
fn group_push_tokens_has_column(columns: &Vec<String>, name: &str) -> (has: bool)
    ensures
        has == texts(columns@).contains(name@),
{
    let mut i: usize = 0;
    while i < columns.len()
        invariant
            i <= columns.len(),
            forall|k: int| 0 <= k < i ==> texts(columns@)[k] != name@,
        decreases columns.len() - i,
    {
        if same_text(columns[i].as_str(), name) {
            assert(texts(columns@)[i as int] == name@);
            return true;
        }
        i = i + 1;
    }
    false
}

impl Migration {
    /// The columns to add to a table with the columns `columns`, in order.
    pub fn run_local(&self, columns: &Vec<String>) -> (added: Vec<NewColumn>)
        ensures
            added@ == (if texts(columns@).contains("platform"@) {
                Seq::empty()
            } else {
                seq![NewColumn::Platform]
            }) + (if texts(columns@).contains("token_fingerprint"@) {
                Seq::empty()
            } else {
                seq![NewColumn::TokenFingerprint]
            }),
            added@.contains(NewColumn::Platform) <==> forall|i: int|
                0 <= i < columns@.len() ==> (#[trigger] columns@[i])@ != "platform"@,
            added@.contains(NewColumn::TokenFingerprint) <==> forall|i: int|
                0 <= i < columns@.len() ==> (#[trigger] columns@[i])@ != "token_fingerprint"@,
            added@.len() == 2 ==> added@[0] == NewColumn::Platform && added@[1]
                == NewColumn::TokenFingerprint,
            added@.len() <= 2,
    {
        let mut added: Vec<NewColumn> = Vec::new();
        if !group_push_tokens_has_column(columns, "platform") {
            added.push(NewColumn::Platform);
        }
        if !group_push_tokens_has_column(columns, "token_fingerprint") {
            added.push(NewColumn::TokenFingerprint);
        }
        assert(added@ =~= (if texts(columns@).contains("platform"@) {
            Seq::<NewColumn>::empty()
        } else {
            seq![NewColumn::Platform]
        }) + (if texts(columns@).contains("token_fingerprint"@) {
            Seq::<NewColumn>::empty()
        } else {
            seq![NewColumn::TokenFingerprint]
        }));
        proof {
            lemma_column_there(columns@, "platform"@);
            lemma_column_there(columns@, "token_fingerprint"@);
            let has_platform = texts(columns@).contains("platform"@);
            let has_fingerprint = texts(columns@).contains("token_fingerprint"@);
            if !has_platform {
                assert(added@[0] == NewColumn::Platform);
            }
            if !has_fingerprint {
                assert(added@[added@.len() - 1] == NewColumn::TokenFingerprint);
            }
        }
        added
    }
}

proof fn lemma_column_there(columns: Seq<String>, name: Seq<char>)
    ensures
        texts(columns).contains(name) <==> !(forall|i: int|
            0 <= i < columns.len() ==> (#[trigger] columns[i])@ != name),
{
    if texts(columns).contains(name) {
        let i = choose|i: int| 0 <= i < texts(columns).len() && texts(columns)[i] == name;
        assert(columns[i]@ == name);
    }
    if exists|i: int| 0 <= i < columns.len() && (#[trigger] columns[i])@ == name {
        let i = choose|i: int| 0 <= i < columns.len() && (#[trigger] columns[i])@ == name;
        assert(texts(columns)[i] == name);
    }
}

} // verus!
