use vstd::prelude::*;

verus! {

/// Violations of the enrollment and matching rules.
#[derive(Debug, Clone, Copy, PartialEq, Eq, Structural)]
pub enum DomainError {
    NoEnrolledTemplate,
    AlreadyEnrolled,
    EmbeddingAggregationFailed,
    NoUsableFaceInCapture,
}

impl DomainError {
    pub open spec fn spec_message(&self) -> Seq<char> {
        match self {
            DomainError::NoEnrolledTemplate => "no enrolled template for this user"@,
            DomainError::AlreadyEnrolled => "user already has an enrolled template"@,
            DomainError::EmbeddingAggregationFailed => "could not average embeddings"@,
            DomainError::NoUsableFaceInCapture => "no face passed the pipeline in this capture"@,
        }
    }

    pub fn message(&self) -> (r: String)
        ensures
            r@ == self.spec_message(),
    {
        match self {
            DomainError::NoEnrolledTemplate => String::from_str(
                "no enrolled template for this user",
            ),
            DomainError::AlreadyEnrolled => String::from_str(
                "user already has an enrolled template",
            ),
            DomainError::EmbeddingAggregationFailed => String::from_str(
                "could not average embeddings",
            ),
            DomainError::NoUsableFaceInCapture => String::from_str(
                "no face passed the pipeline in this capture",
            ),
        }
    }
}

} // verus!
