//! The quota of the token bucket that paces the requests.

use vstd::prelude::*;

verus! {

/// The capacity of the bucket for a configured rate limit: that limit, but
/// one request per second at least.
pub fn requests_per_second(rate_limit_per_sec: u32) -> (capacity: u32)
    ensures
        capacity >= 1,
        capacity == (if rate_limit_per_sec < 1 { 1u32 } else { rate_limit_per_sec }),
{
    if rate_limit_per_sec < 1 {
        1
    } else {
        rate_limit_per_sec
    }
}

} // verus!
