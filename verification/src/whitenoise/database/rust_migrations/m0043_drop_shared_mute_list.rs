use vstd::prelude::*;

use crate::whitenoise::database::rust_migrations::migration::GlobalMigration;

verus! {

pub struct Migration;

impl GlobalMigration for Migration {
    open spec fn spec_version(&self) -> u32 {
        43
    }

    open spec fn spec_description(&self) -> Seq<char> {
        "Drop shared mute_list table (data moved to per-account DBs in v42)"@
    }

    fn version(&self) -> (v: u32) {
        43
    }

    fn description(&self) -> (d: &'static str) {
        "Drop shared mute_list table (data moved to per-account DBs in v42)"
    }
}

} // verus!
