use vstd::prelude::*;

verus! {

/// Outcome of a frontal-pose check that did not pass.
#[derive(Debug, Clone, PartialEq, Eq)]
pub enum PoseError {
    NotFrontal,
    Failed(String),
}

impl PoseError {
    pub open spec fn spec_message(&self) -> Seq<char> {
        match self {
            PoseError::NotFrontal => "pose: face not sufficiently frontal"@,
            PoseError::Failed(m) => m@,
        }
    }

    pub fn message(&self) -> (r: String)
        ensures
            r@ == self.spec_message(),
    {
        match self {
            PoseError::NotFrontal => String::from_str("pose: face not sufficiently frontal"),
            PoseError::Failed(m) => m.clone(),
        }
    }
}

} // verus!
