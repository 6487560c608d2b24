//! The one place where the engine touches the wall clock.

use vstd::prelude::*;

verus! {

/// Relies on chrono::Utc::now (via DateTime::timestamp): the current wall
/// clock, as whole seconds since the Unix epoch. Nothing is promised of the
/// value; callers must hold for every reading the clock could give.
#[verifier::external_body]
pub(crate) fn now_epoch_seconds() -> i64 {
    chrono::Utc::now().timestamp()
}

} // verus!
