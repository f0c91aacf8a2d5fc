use vstd::prelude::*;

verus! {

/// Failure reported by a face detector.
#[derive(Debug, Clone, PartialEq, Eq)]
pub enum DetectError {
    Failed(String),
}

impl DetectError {
    /// Human-readable description: the carried message itself.
    pub open spec fn spec_message(&self) -> Seq<char> {
        match self {
            DetectError::Failed(m) => m@,
        }
    }

    pub fn message(&self) -> (r: String)
        ensures
            r@ == self.spec_message(),
    {
        match self {
            DetectError::Failed(m) => m.clone(),
        }
    }
}

} // verus!
