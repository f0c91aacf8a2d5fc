//! The daemon's health and liveness stand-ins.

use vstd::prelude::*;

use crate::domain::frame::Frame;
use crate::ports::{Health, HealthStatus, LivenessChecker, LivenessError};

verus! {

/// Reports the daemon as always healthy.
pub struct DefaultHealth;

impl DefaultHealth {
    pub fn current(&self) -> (r: HealthStatus)
        ensures
            r == HealthStatus::Healthy,
    {
        HealthStatus::Healthy
    }
}

impl Health for DefaultHealth {
    fn status(&self) -> (r: HealthStatus)
        ensures
            r == HealthStatus::Healthy,
    {
        self.current()
    }
}

/// Accepts every face as live.
pub struct AlwaysLiveLiveness;

impl AlwaysLiveLiveness {
    pub fn check(&self, aligned_face: &Frame) -> (r: Result<(), LivenessError>)
        ensures
            r is Ok,
    {
        Ok(())
    }
}

impl LivenessChecker for AlwaysLiveLiveness {
    fn verify_live(&self, aligned_face: &Frame) -> (r: Result<(), LivenessError>)
        ensures
            r is Ok,
    {
        self.check(aligned_face)
    }
}

} // verus!
