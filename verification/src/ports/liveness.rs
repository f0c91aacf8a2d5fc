use vstd::prelude::*;

use crate::domain::frame::Frame;

verus! {

/// Outcome of a liveness check that did not pass.
#[derive(Debug, Clone, PartialEq, Eq)]
pub enum LivenessError {
    NotLive,
    Failed(String),
}

impl LivenessError {
    pub open spec fn spec_message(&self) -> Seq<char> {
        match self {
            LivenessError::NotLive => "liveness: not a live face"@,
            LivenessError::Failed(m) => m@,
        }
    }

    pub fn message(&self) -> (r: String)
        ensures
            r@ == self.spec_message(),
    {
        match self {
            LivenessError::NotLive => String::from_str("liveness: not a live face"),
            LivenessError::Failed(m) => m.clone(),
        }
    }
}

/// Decides whether an aligned face comes from a live person.
pub trait LivenessChecker: Send + Sync {
    fn verify_live(&self, aligned_face: &Frame) -> Result<(), LivenessError>;
}

} // verus!
