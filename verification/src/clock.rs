//! The wall clock.

use vstd::prelude::*;

verus! {

/// Milliseconds since the Unix epoch.
pub type Timestamp = i64;

/// `chrono::Utc::now`, as milliseconds since the Unix epoch. Nothing is known
/// of the value: it is whatever the machine's clock says.
#[verifier::external_body]
pub(crate) fn now() -> (r: Timestamp) {
    chrono::Utc::now().timestamp_millis()
}

/// Whole seconds from `earlier` to `later`, rounded towards zero.
pub open spec fn seconds_between(earlier: Timestamp, later: Timestamp) -> int {
    if later >= earlier {
        (later - earlier) / 1000
    } else {
        -((earlier - later) / 1000)
    }
}

/// Whole seconds from `earlier` to `later`, rounded towards zero.
pub fn elapsed_seconds(earlier: Timestamp, later: Timestamp) -> (r: i64)
    ensures
        r == seconds_between(earlier, later),
{
    let wide: i128 = (later as i128 - earlier as i128) / 1000;
    wide as i64
}

} // verus!
