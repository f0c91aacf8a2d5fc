use vstd::prelude::*;

verus! {

/// Failure reported by a template store.
#[derive(Debug, Clone, PartialEq, Eq)]
pub enum StoreError {
    Failed(String),
}

impl StoreError {
    /// Human-readable description: the carried message itself.
    pub open spec fn spec_message(&self) -> Seq<char> {
        match self {
            StoreError::Failed(m) => m@,
        }
    }

    pub fn message(&self) -> (r: String)
        ensures
            r@ == self.spec_message(),
    {
        match self {
            StoreError::Failed(m) => m.clone(),
        }
    }
}

} // verus!
