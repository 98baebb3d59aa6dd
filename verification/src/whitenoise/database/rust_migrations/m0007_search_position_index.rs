use vstd::prelude::*;

use crate::whitenoise::database::rust_migrations::migration::GlobalMigration;

verus! {

pub struct Migration;

impl GlobalMigration for Migration {
    open spec fn spec_version(&self) -> u32 {
        7
    }

    open spec fn spec_description(&self) -> Seq<char> {
        "Replace aggregated_messages kind-group index with message_id tiebreaker"@
    }

    fn version(&self) -> (v: u32) {
        7
    }

    fn description(&self) -> (d: &'static str) {
        "Replace aggregated_messages kind-group index with message_id tiebreaker"
    }
}

} // verus!
