use vstd::prelude::*;

use crate::whitenoise::database::rust_migrations::migration::GlobalMigration;

verus! {

pub struct Migration;

impl GlobalMigration for Migration {
    open spec fn spec_version(&self) -> u32 {
        37
    }

    open spec fn spec_description(&self) -> Seq<char> {
        "Drop shared accounts_groups table (data moved to per-account DBs in v36)"@
    }

    fn version(&self) -> (v: u32) {
        37
    }

    fn description(&self) -> (d: &'static str) {
        "Drop shared accounts_groups table (data moved to per-account DBs in v36)"
    }
}

} // verus!
