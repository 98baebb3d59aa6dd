use vstd::prelude::*;

use crate::whitenoise::database::rust_migrations::migration::GlobalMigration;

verus! {

pub struct Migration;

impl GlobalMigration for Migration {
    open spec fn spec_version(&self) -> u32 {
        14
    }

    open spec fn spec_description(&self) -> Seq<char> {
        "Drop legacy media_files table after blob/reference split"@
    }

    fn version(&self) -> (v: u32) {
        14
    }

    fn description(&self) -> (d: &'static str) {
        "Drop legacy media_files table after blob/reference split"
    }
}

} // verus!
