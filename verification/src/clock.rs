//! Access to the wall clock, used to timestamp connections and terminal
//! records.

use vstd::prelude::*;

verus! {

/// Relies on chrono's `Utc::now` and `DateTime::timestamp`: the current
/// wall-clock time as whole seconds since the Unix epoch. The value depends
/// on the machine's clock, so nothing is promised of it; every caller is
/// verified for an arbitrary result.
#[verifier::external_body]
pub(crate) fn now_ts() -> i64 {
    chrono::Utc::now().timestamp()
}

} // verus!
