use vstd::prelude::*;

use crate::whitenoise::database::rust_migrations::migration::GlobalMigration;

verus! {

pub struct Migration;

impl GlobalMigration for Migration {
    open spec fn spec_version(&self) -> u32 {
        40
    }

    open spec fn spec_description(&self) -> Seq<char> {
        "Drop shared message_delivery_status table (data moved to per-account DBs in v39)"@
    }

    fn version(&self) -> (v: u32) {
        40
    }

    fn description(&self) -> (d: &'static str) {
        "Drop shared message_delivery_status table (data moved to per-account DBs in v39)"
    }
}

} // verus!
