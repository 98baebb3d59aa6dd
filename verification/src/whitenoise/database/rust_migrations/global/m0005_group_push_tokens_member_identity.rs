use vstd::prelude::*;

use crate::whitenoise::database::rust_migrations::migration::GlobalMigration;

verus! {

pub struct Migration;

impl GlobalMigration for Migration {
    open spec fn spec_version(&self) -> u32 {
        5
    }

    open spec fn spec_description(&self) -> Seq<char> {
        "Recreate group_push_tokens with member_pubkey column"@
    }

    fn version(&self) -> (v: u32) {
        5
    }

    fn description(&self) -> (d: &'static str) {
        "Recreate group_push_tokens with member_pubkey column"
    }
}

} // verus!
