//! The pass-through pose estimator.

use vstd::prelude::*;

use crate::ports::PoseError;

verus! {

/// Accepts every face as frontal.
pub struct PassthroughFacePoseEstimator;

impl PassthroughFacePoseEstimator {
    pub fn check(&self) -> (r: Result<(), PoseError>)
        ensures
            r is Ok,
    {
        Ok(())
    }
}

} // verus!
