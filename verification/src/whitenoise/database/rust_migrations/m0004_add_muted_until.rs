use vstd::prelude::*;

use crate::whitenoise::database::rust_migrations::migration::GlobalMigration;

verus! {

pub struct Migration;

impl GlobalMigration for Migration {
    open spec fn spec_version(&self) -> u32 {
        4
    }

    open spec fn spec_description(&self) -> Seq<char> {
        "Add muted_until to accounts_groups"@
    }

    fn version(&self) -> (v: u32) {
        4
    }

    fn description(&self) -> (d: &'static str) {
        "Add muted_until to accounts_groups"
    }
}

} // verus!
