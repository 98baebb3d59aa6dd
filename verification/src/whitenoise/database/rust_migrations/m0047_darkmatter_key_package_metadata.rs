use vstd::prelude::*;

use crate::whitenoise::database::rust_migrations::migration::LocalMigration;

verus! {

pub struct Migration;

impl LocalMigration for Migration {
    open spec fn spec_version(&self) -> u32 {
        47
    }

    open spec fn spec_description(&self) -> Seq<char> {
        "Add Darkmatter key package metadata"@
    }

    open spec fn spec_for_new_accounts_only(&self) -> bool {
        false
    }

    fn version(&self) -> (v: u32) {
        47
    }

    fn description(&self) -> (d: &'static str) {
        "Add Darkmatter key package metadata"
    }

    fn for_new_accounts_only(&self) -> (b: bool) {
        false
    }
}

} // verus!
