use vstd::prelude::*;

use crate::whitenoise::database::rust_migrations::migration::GlobalMigration;

verus! {

pub struct Migration;

impl GlobalMigration for Migration {
    open spec fn spec_version(&self) -> u32 {
        2
    }

    open spec fn spec_description(&self) -> Seq<char> {
        "Add removed_at to accounts_groups"@
    }

    fn version(&self) -> (v: u32) {
        2
    }

    fn description(&self) -> (d: &'static str) {
        "Add removed_at to accounts_groups"
    }
}

} // verus!
