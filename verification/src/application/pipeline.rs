//! How enrollment and verification acquire and process frames (batch burst vs streaming loop).

use vstd::prelude::*;

verus! {

/// First-time enrollment: burst capture vs streaming session (e.g. stability-based stop).
#[derive(Debug, Clone, Copy, PartialEq, Eq, Default, Structural)]
pub enum EnrollPipelineMode {
    /// Warmup + fixed frame count, then average embeddings.
    #[default]
    Batch,
    /// Frame loop with policies such as embedding stability.
    Streaming,
}

/// Verification: burst vs streaming temporal decision.
#[derive(Debug, Clone, Copy, PartialEq, Eq, Default, Structural)]
pub enum VerifyPipelineMode {
    #[default]
    Batch,
    Streaming,
}

} // verus!
