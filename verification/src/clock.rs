//! The one place where the library reads the wall clock.

use vstd::prelude::*;

verus! {

/// Relies on chrono::Utc::now: the current time as whole seconds since the
/// Unix epoch.  The result depends on the wall clock, so nothing is promised
/// about it.
#[verifier::external_body]
pub(crate) fn now_timestamp() -> i64 {
    chrono::Utc::now().timestamp()
}

} // verus!
