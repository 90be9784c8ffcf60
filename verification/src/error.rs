use vstd::prelude::*;

verus! {

/// Errors of the balancing layer itself.  A backend's own conversion
/// failure is not among them: it is handed back to the caller verbatim.
#[derive(Clone, Copy, Debug, PartialEq, Eq, Structural)]
pub enum LoadBalanceError {
    /// The pool holds no slots, so no conversion can ever be routed.
    NoServers,
}

impl LoadBalanceError {
    /// Human-readable description of the error.
    pub fn message(&self) -> (m: &'static str)
        ensures
            m@ == "no servers available for load balancing"@,
    {
        "no servers available for load balancing"
    }
}

} // verus!
