//! The wall clock.

use vstd::prelude::*;

verus! {

/// `chrono::Utc::now().timestamp()`: the current time in seconds since the
/// Unix epoch. Nothing is claimed of the value. The call panics on a machine
/// whose clock stands before the epoch.
#[verifier::external_body]
pub(crate) fn unix_now() -> i64 {
    chrono::Utc::now().timestamp()
}

} // verus!
