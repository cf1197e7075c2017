//! Token validation policy.

use crate::time::TimeSpan;
use vstd::prelude::*;

verus! {

/// Policy that controls token validation cadence.
#[derive(Clone, Copy, Debug, PartialEq, Eq)]
pub struct ValidationPolicy {
    /// Whether active sessions should be validated at startup.
    pub validate_on_startup: bool,
    /// Interval for periodic token validation.
    pub revalidate_every: TimeSpan,
}

impl Default for ValidationPolicy {
    /// Validate at startup and every hour.
    fn default() -> (r: Self)
        ensures
            r.validate_on_startup,
            r.revalidate_every.total_nanos() == 3600 * 1_000_000_000,
    {
        ValidationPolicy { validate_on_startup: true, revalidate_every: TimeSpan::from_secs(60 * 60) }
    }
}

} // verus!
