//! The system clock.

use vstd::prelude::*;

verus! {

/// `cdk_common::util::unix_time`: the seconds since the epoch by the system
/// clock. Nothing is known of the value.
#[verifier::external_body]
pub(crate) fn unix_time() -> u64 {
    cdk_common::util::unix_time()
}

} // verus!
