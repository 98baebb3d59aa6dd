use vstd::prelude::*;

use crate::whitenoise::database::rust_migrations::migration::LocalMigration;

verus! {

pub struct Migration;

impl LocalMigration for Migration {
    open spec fn spec_version(&self) -> u32 {
        46
    }

    open spec fn spec_description(&self) -> Seq<char> {
        "Create account maintenance task markers"@
    }

    open spec fn spec_for_new_accounts_only(&self) -> bool {
        false
    }

    fn version(&self) -> (v: u32) {
        46
    }

    fn description(&self) -> (d: &'static str) {
        "Create account maintenance task markers"
    }

    fn for_new_accounts_only(&self) -> (b: bool) {
        false
    }
}

} // verus!
