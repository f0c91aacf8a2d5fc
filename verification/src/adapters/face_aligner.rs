//! The pass-through face aligner.

use vstd::prelude::*;

use crate::domain::frame::Frame;

verus! {

/// Clones the full input frame (no crop / warp). Use when testing the rest of the pipeline
/// without caring about face alignment.
pub struct PassthroughFaceAligner;

impl PassthroughFaceAligner {
    /// The "aligned" face is a copy of the whole frame, whatever the detection.
    pub fn align_frame(&self, frame: &Frame) -> (r: Frame)
        ensures
            r@ == frame@,
    {
        frame.clone()
    }
}

} // verus!
