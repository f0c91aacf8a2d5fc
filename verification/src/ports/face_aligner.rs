use vstd::prelude::*;

verus! {

/// Failure reported by a face aligner.
#[derive(Debug, Clone, PartialEq, Eq)]
pub enum AlignError {
    Failed(String),
}

impl AlignError {
    /// Human-readable description: the carried message itself.
    pub open spec fn spec_message(&self) -> Seq<char> {
        match self {
            AlignError::Failed(m) => m@,
        }
    }

    pub fn message(&self) -> (r: String)
        ensures
            r@ == self.spec_message(),
    {
        match self {
            AlignError::Failed(m) => m.clone(),
        }
    }
}

} // verus!
