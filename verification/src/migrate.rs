//! Which schema version the store works on, and which steps lead to it.
use crate::error;
use crate::error::{Fault, PgError, PgResult};
use crate::text;
use vstd::prelude::*;
use vstd::string::StringExecFns;

verus! {

pub const EXPECTED_SCHEMA_VERSION: i32 = 6;

/// How many migration steps there are; step `n` leads from version `n - 1` to version `n`.
pub const MIGRATION_STEPS: i32 = 6;

/// The message on a schema of another version.
pub open spec fn version_message(version: int) -> Seq<char> {
    "schema version "@ + text::decimal_form(version) + ", expected 6"@
}

/// What a schema of the given version, or none, is met with.
pub open spec fn schema_check(version: Option<i32>) -> Result<(), Fault> {
    match version {
        Some(v) => if v == EXPECTED_SCHEMA_VERSION {
            Ok(())
        } else {
            Err(Fault::SchemaIncompatible(version_message(v as int)))
        },
        None => Err(
            Fault::SchemaIncompatible(
                "schema_state missing; refuse to treat an empty or half-migrated database as ready"@,
            ),
        ),
    }
}

fn incompatible(version: i32) -> (r: PgError)
    ensures
        r@ == Fault::SchemaIncompatible(version_message(version as int)),
{
    let mut message = "schema version ".to_owned();
    message.append(text::decimal(version as i64).as_str());
    message.append(", expected 6");
    PgError::SchemaIncompatible(message)
}

/// Whether the schema is the one that the store works on.
pub fn check_schema(version: Option<i32>) -> (r: PgResult<()>)
    ensures
        error::checked(r) == schema_check(version),
{
    match version {
        Some(v) => {
            if v == EXPECTED_SCHEMA_VERSION {
                return Ok(());
            }
            Err(incompatible(v))
        },
        None => Err(
            PgError::SchemaIncompatible(
                "schema_state missing; refuse to treat an empty or half-migrated database as ready".to_owned(),
            ),
        ),
    }
}

/// The version from which migration starts: that of the schema, or 0 where there is none.
pub open spec fn start_version(version: Option<i32>) -> i32 {
    match version {
        Some(v) => v,
        None => 0,
    }
}

/// The migration steps to run, in ascending order: those above the current version. A schema
/// newer than expected is refused.
pub fn migrate(version: Option<i32>) -> (r: PgResult<Vec<i32>>)
    ensures
        match r {
            Ok(steps) => {
                &&& start_version(version) <= EXPECTED_SCHEMA_VERSION
                &&& forall|i: int, j: int|
                    0 <= i < j < steps@.len() ==> #[trigger] steps@[i] < #[trigger] steps@[j]
                &&& forall|n: i32| #[trigger]
                    steps@.contains(n) <==> 1 <= n <= MIGRATION_STEPS && start_version(version) < n
            },
            Err(e) => version is Some && version->Some_0 > EXPECTED_SCHEMA_VERSION && e@
                == Fault::SchemaIncompatible(version_message(version->Some_0 as int)),
        },
{
    let current: i32 = match version {
        Some(v) => {
            if v > EXPECTED_SCHEMA_VERSION {
                return Err(incompatible(v));
            }
            v
        },
        None => 0,
    };
    let mut steps: Vec<i32> = Vec::new();
    let mut n: i32 = 1;
    while n <= MIGRATION_STEPS
        invariant
            1 <= n <= MIGRATION_STEPS + 1,
            forall|i: int| 0 <= i < steps@.len() ==> #[trigger] steps@[i] < n,
            forall|i: int, j: int|
                0 <= i < j < steps@.len() ==> #[trigger] steps@[i] < #[trigger] steps@[j],
            forall|k: i32| #[trigger] steps@.contains(k) <==> 1 <= k < n && current < k,
        decreases MIGRATION_STEPS + 1 - n,
    {
        if current < n {
            let ghost before = steps@;
            steps.push(n);
            assert forall|k: i32| #[trigger] steps@.contains(k) <==> 1 <= k < n + 1 && current < k by {
                if before.contains(k) {
                    let i = choose|i: int| 0 <= i < before.len() && before[i] == k;
                    assert(steps@[i] == k);
                }
                if k == n {
                    assert(steps@[before.len() as int] == n);
                }
                if steps@.contains(k) {
                    let i = choose|i: int| 0 <= i < steps@.len() && steps@[i] == k;
                    if i < before.len() {
                        assert(before[i] == k);
                    }
                }
            }
        }
        n = n + 1;
    }
    Ok(steps)
}

/// A schema of the expected version needs no step.
pub proof fn expected_version_needs_no_step(version: Option<i32>, steps: Seq<i32>)
    requires
        version == Some(EXPECTED_SCHEMA_VERSION),
        forall|n: i32| #[trigger]
            steps.contains(n) <==> 1 <= n <= MIGRATION_STEPS && start_version(version) < n,
    ensures
        steps.len() == 0,
        schema_check(version) == Ok::<(), Fault>(()),
{
    if steps.len() > 0 {
        assert(steps.contains(steps[0]));
    }
}

/// A database is ready exactly at version 6. One that was never migrated is refused as such, and any
/// other version is named.
pub proof fn databases_are_ready_at_one_version(v: i32)
    ensures
        schema_check(Some(v)) is Ok <==> v == 6,
        schema_check(None) is Err,
        v != 6 ==> schema_check(Some(v)) == Err::<(), Fault>(
            Fault::SchemaIncompatible(
                "schema version "@ + text::decimal_form(v as int) + ", expected 6"@,
            ),
        ),
{
}

/// A database that was never migrated takes all six steps, in order; one at version `v` those above it.
pub proof fn migrations_take_the_steps_above(v: i32, n: i32)
    requires
        0 <= v <= 6,
    ensures
        start_version(None) == 0,
        start_version(Some(v)) == v,
        (1 <= n <= MIGRATION_STEPS && start_version(Some(v)) < n) <==> v < n <= 6,
{
}

} // verus!
