use vstd::prelude::*;

verus! {

/// Failure reported by an embedder.
#[derive(Debug, Clone, PartialEq, Eq)]
pub enum EmbedError {
    Failed(String),
}

impl EmbedError {
    /// Human-readable description: the carried message itself.
    pub open spec fn spec_message(&self) -> Seq<char> {
        match self {
            EmbedError::Failed(m) => m@,
        }
    }

    pub fn message(&self) -> (r: String)
        ensures
            r@ == self.spec_message(),
    {
        match self {
            EmbedError::Failed(m) => m.clone(),
        }
    }
}

} // verus!
