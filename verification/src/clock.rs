//! The one place the library touches the wall clock.

use vstd::prelude::*;

verus! {

/// Relies on chrono's `Local::now` and `DateTime::timestamp`: the wall
/// clock read as whole seconds since the Unix epoch. Nothing is assumed
/// of the value — the accrual contract covers every outcome, including
/// clock skew backwards.
#[verifier::external_body]
pub(crate) fn now_seconds() -> i64 {
    chrono::Local::now().timestamp()
}

} // verus!
