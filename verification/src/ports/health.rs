use vstd::prelude::*;

verus! {

/// Whether the daemon can serve requests.
#[derive(Debug, Clone, Copy, PartialEq, Eq)]
pub enum HealthStatus {
    Healthy,
    Degraded { reason: &'static str },
}

/// Reports the daemon's health.
pub trait Health: Send + Sync {
    fn status(&self) -> HealthStatus;
}

} // verus!
