use vstd::prelude::*;

use crate::whitenoise::database::rust_migrations::migration::GlobalMigration;

verus! {

pub struct Migration;

impl GlobalMigration for Migration {
    open spec fn spec_version(&self) -> u32 {
        10
    }

    open spec fn spec_description(&self) -> Seq<char> {
        "Add kind and d_tag columns to published_key_packages"@
    }

    fn version(&self) -> (v: u32) {
        10
    }

    fn description(&self) -> (d: &'static str) {
        "Add kind and d_tag columns to published_key_packages"
    }
}

} // verus!
