use vstd::prelude::*;

verus! {

/// Failure reported by a face embedder.
#[derive(Debug, Clone, PartialEq, Eq)]
pub enum FaceEmbedError {
    Failed(String),
}

impl FaceEmbedError {
    /// Human-readable description: the carried message itself.
    pub open spec fn spec_message(&self) -> Seq<char> {
        match self {
            FaceEmbedError::Failed(m) => m@,
        }
    }

    pub fn message(&self) -> (r: String)
        ensures
            r@ == self.spec_message(),
    {
        match self {
            FaceEmbedError::Failed(m) => m.clone(),
        }
    }
}

} // verus!
