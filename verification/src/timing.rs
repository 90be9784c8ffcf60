use vstd::prelude::*;

verus! {

/// Timing configuration for the balancer.  All durations are in
/// milliseconds and are fixed for the balancer's lifetime.
#[derive(Clone, Copy, Debug, PartialEq, Eq, Structural)]
pub struct LoadBalancerTiming {
    /// Time in-between external busy checks on one slot.
    pub retry_busy_check_after: u64,
    /// Time to wait before repeated attempts when no wake can be expected.
    pub retry_single_external: u64,
    /// Upper bound on one wait for the wake signal.
    pub notify_timeout: u64,
}

impl Default for LoadBalancerTiming {
    /// Default timing: 5 s between busy re-checks, 1 s poll delay,
    /// 120 s bound on a wake wait.
    fn default() -> (t: Self)
        ensures
            t.retry_busy_check_after == 5000,
            t.retry_single_external == 1000,
            t.notify_timeout == 120000,
    {
        LoadBalancerTiming {
            retry_busy_check_after: 5000,
            retry_single_external: 1000,
            notify_timeout: 120000,
        }
    }
}

} // verus!
