use vstd::prelude::*;

use crate::whitenoise::database::rust_migrations::migration::GlobalMigration;

verus! {

pub struct Migration;

impl GlobalMigration for Migration {
    open spec fn spec_version(&self) -> u32 {
        9
    }

    open spec fn spec_description(&self) -> Seq<char> {
        "Add NIP-51 mute list table"@
    }

    fn version(&self) -> (v: u32) {
        9
    }

    fn description(&self) -> (d: &'static str) {
        "Add NIP-51 mute list table"
    }
}

} // verus!
