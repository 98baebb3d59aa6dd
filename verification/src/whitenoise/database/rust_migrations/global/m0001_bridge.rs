//! Bridges installs whose schema was kept by the SQLx migrator.

use vstd::prelude::*;

use crate::whitenoise::database::rust_migrations::migration::GlobalMigration;
use vstd::string::StringExecFns;

use crate::whitenoise::database::DatabaseError;
use crate::whitenoise::text::{signed_decimal, signed_decimal_text};

verus! {

pub struct Migration;

impl GlobalMigration for Migration {
    open spec fn spec_version(&self) -> u32 {
        1
    }

    open spec fn spec_description(&self) -> Seq<char> {
        "Bridge from SQLx migrations to Rust-only"@
    }

    fn version(&self) -> (v: u32) {
        1
    }

    fn description(&self) -> (d: &'static str) {
        "Bridge from SQLx migrations to Rust-only"
    }
}

/// The last SQLx migration version shipped in a released build. Existing
/// installs must be at this version at least; everything beyond is handled by
/// later migrations.
pub const EXPECTED_SQLX_VERSION: i64 = 37;

/// What the bridge has to do on the shared database.
#[derive(Debug)]
pub enum BridgePlan {
    /// A fresh install: create the base schema.
    CreateSchema,
    /// An existing install: record these versions, since the SQLx migrations
    /// that they correspond to have been applied.
    Stamp(Vec<u32>),
}

/// How many versions an install at SQLx version `max_version` gets stamped:
/// version `n` from 2 to 11 corresponds to SQLx version `n + 36`.
pub open spec fn stamp_count(max_version: i64) -> int {
    if max_version >= 47 {
        10
    } else {
        max_version - EXPECTED_SQLX_VERSION
    }
}

pub open spec fn unexpected_state(max_version: i64) -> Seq<char> {
    "SQLx migrations unexpected state: found version "@ + signed_decimal(max_version as int)
        + ", expected at least 37. Please update to v2026.3.23 first."@
}

impl Migration {
    /// The description under which stamped versions are recorded.
    pub fn stamp_description(&self) -> (d: &'static str)
        ensures
            d@ == "Auto-stamped: corresponding SQLx migration already applied"@,
    {
        "Auto-stamped: corresponding SQLx migration already applied"
    }

    /// Decides what to do from the highest SQLx version on record: none where
    /// there is no SQLx table, 0 where the table is empty.
    pub fn run_global(&self, sqlx_version: Option<i64>) -> (plan: Result<BridgePlan, DatabaseError>)
        ensures
            sqlx_version is None ==> plan == Ok::<BridgePlan, DatabaseError>(
                BridgePlan::CreateSchema,
            ),
            sqlx_version matches Some(v) ==> {
                &&& v < EXPECTED_SQLX_VERSION ==> (plan matches Err(DatabaseError::Protocol(m)) && m@
                    == unexpected_state(v))
                &&& v >= EXPECTED_SQLX_VERSION ==> (plan matches Ok(BridgePlan::Stamp(versions))
                    && versions.len() == stamp_count(v) && forall|i: int|
                    0 <= i < versions.len() ==> #[trigger] versions[i] == i + 2)
            },
            sqlx_version is Some ==> (plan is Err <==> sqlx_version->0 < 37),
            sqlx_version is Some && sqlx_version->0 >= 37 ==> plan is Ok && plan->Ok_0 is Stamp && forall|
                n: u32,
            |
                plan->Ok_0->Stamp_0@.contains(n) <==> 2 <= n <= 11 && n + 36 <= sqlx_version->0,
    {
        let max_version = match sqlx_version {
            Some(v) => v,
            None => {
                return Ok(BridgePlan::CreateSchema);
            },
        };
        if max_version < EXPECTED_SQLX_VERSION {
            let mut message = String::from_str("SQLx migrations unexpected state: found version ");
            message.append(signed_decimal_text(max_version).as_str());
            message.append(", expected at least 37. Please update to v2026.3.23 first.");
            return Err(DatabaseError::Protocol(message));
        }
        let mut versions: Vec<u32> = Vec::new();
        let mut version: u32 = 2;
        while version <= 11
            invariant
                2 <= version <= 12,
                max_version >= EXPECTED_SQLX_VERSION,
                versions.len() == (if version - 2 <= stamp_count(max_version) {
                    version - 2
                } else {
                    stamp_count(max_version)
                }),
                forall|i: int| 0 <= i < versions.len() ==> #[trigger] versions[i] == i + 2,
            decreases 12 - version,
        {
            if version as i64 + 36 <= max_version {
                versions.push(version);
            }
            version = version + 1;
        }
        proof {
            let stamped = versions@;
            assert forall|n: u32| #[trigger] stamped.contains(n) <==> 2 <= n <= 11 && n + 36 <= max_version by {
                if stamped.contains(n) {
                    let i = choose|i: int| 0 <= i < stamped.len() && stamped[i] == n;
                    assert(versions[i] == i + 2);
                }
                if 2 <= n <= 11 && n + 36 <= max_version {
                    assert(versions[n - 2] == n);
                    assert(stamped[n - 2] == n);
                }
            }
        }
        Ok(BridgePlan::Stamp(versions))
    }
}

/// As many versions are stamped as there are released steps after the
/// thirty-seventh, up to the forty-seventh.
pub proof fn released_steps_are_stamped(max_version: i64)
    requires
        max_version >= 37,
    ensures
        max_version <= 47 ==> stamp_count(max_version) == max_version - 37,
        max_version >= 47 ==> stamp_count(max_version) == 10,
{
}

/// An install that is too old is told the version that was found.
pub proof fn an_old_install_is_told_its_version(max_version: i64)
    ensures
        unexpected_state(max_version) == "SQLx migrations unexpected state: found version "@
            + signed_decimal(max_version as int)
            + ", expected at least 37. Please update to v2026.3.23 first."@,
{
}

} // verus!
