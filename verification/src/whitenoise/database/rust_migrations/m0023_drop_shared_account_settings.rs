use vstd::prelude::*;

use crate::whitenoise::database::rust_migrations::migration::GlobalMigration;

verus! {

pub struct Migration;

impl GlobalMigration for Migration {
    open spec fn spec_version(&self) -> u32 {
        23
    }

    open spec fn spec_description(&self) -> Seq<char> {
        "Drop shared account_settings (moved to per-account DB at v17)"@
    }

    fn version(&self) -> (v: u32) {
        23
    }

    fn description(&self) -> (d: &'static str) {
        "Drop shared account_settings (moved to per-account DB at v17)"
    }
}

} // verus!
