//! The default timeout.
use std::time::Duration;
use vstd::prelude::*;

verus! {

/// The duration that `Duration::from_secs` makes of a number of whole seconds.
pub uninterp spec fn duration_of_secs(secs: u64) -> Duration;

/// `Duration::from_secs` of the standard library: the result depends on the
/// number of seconds alone and is given the name `duration_of_secs`.
pub assume_specification[ Duration::from_secs ](secs: u64) -> (duration: Duration)
    ensures
        duration == duration_of_secs(secs),
;

/// How long a request that waits for the network may take when no other
/// timeout was chosen: thirty seconds.
pub open spec fn default_timeout_spec() -> Duration {
    duration_of_secs(30)
}

/// The timeout that holds when none was chosen.
pub fn default_timeout() -> (timeout: Duration)
    ensures
        timeout == default_timeout_spec(),
{
    Duration::from_secs(30)
}

} // verus!
