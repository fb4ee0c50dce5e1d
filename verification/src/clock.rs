//! The wall clock.

use vstd::prelude::*;

verus! {

/// The current time in whole seconds since 1970-01-01T00:00:00Z, as
/// `time::get_time` reports it.
///
/// Nothing is claimed of the value: it is whatever the system clock says when
/// the call is made.
#[verifier::external_body]
pub(crate) fn now_utc_seconds() -> (seconds: i64) {
    time::get_time().sec
}

} // verus!
