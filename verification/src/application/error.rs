//! Errors of the application services.

use vstd::prelude::*;
use vstd::std_specs::convert::FromSpecImpl;

use crate::domain::error::DomainError;
use crate::ports::{
    AlignError, CaptureError, DetectError, FaceEmbedError, LivenessError, PoseError, StoreError,
};

verus! {

/// Any failure of `ping`, `enroll`, `verify` or `add_template`.
#[derive(Debug, Clone, PartialEq, Eq)]
pub enum AppError {
    PipelineNotImplemented(&'static str),
    Domain(DomainError),
    Unhealthy(&'static str),
    Capture(CaptureError),
    Detect(DetectError),
    Align(AlignError),
    Liveness(LivenessError),
    Pose(PoseError),
    FaceEmbed(FaceEmbedError),
    Store(StoreError),
}

impl AppError {
    /// Human-readable description; wrapped errors describe themselves.
    pub open spec fn spec_message(&self) -> Seq<char> {
        match self {
            AppError::PipelineNotImplemented(what) => "pipeline not implemented: "@ + what@,
            AppError::Domain(e) => e.spec_message(),
            AppError::Unhealthy(reason) => "daemon is not healthy: "@ + reason@,
            AppError::Capture(e) => e.spec_message(),
            AppError::Detect(e) => e.spec_message(),
            AppError::Align(e) => e.spec_message(),
            AppError::Liveness(e) => e.spec_message(),
            AppError::Pose(e) => e.spec_message(),
            AppError::FaceEmbed(e) => e.spec_message(),
            AppError::Store(e) => e.spec_message(),
        }
    }

    pub fn message(&self) -> (r: String)
        ensures
            r@ == self.spec_message(),
    {
        match self {
            AppError::PipelineNotImplemented(what) => String::from_str(
                "pipeline not implemented: ",
            ).concat(what),
            AppError::Domain(e) => e.message(),
            AppError::Unhealthy(reason) => String::from_str("daemon is not healthy: ").concat(
                reason,
            ),
            AppError::Capture(e) => e.message(),
            AppError::Detect(e) => e.message(),
            AppError::Align(e) => e.message(),
            AppError::Liveness(e) => e.message(),
            AppError::Pose(e) => e.message(),
            AppError::FaceEmbed(e) => e.message(),
            AppError::Store(e) => e.message(),
        }
    }
}

impl From<DomainError> for AppError {
    fn from(e: DomainError) -> (r: Self)
        ensures
            r == AppError::Domain(e),
    {
        AppError::Domain(e)
    }
}

impl FromSpecImpl<DomainError> for AppError {
    open spec fn obeys_from_spec() -> bool {
        true
    }

    open spec fn from_spec(v: DomainError) -> Self {
        AppError::Domain(v)
    }
}

impl From<CaptureError> for AppError {
    fn from(e: CaptureError) -> (r: Self)
        ensures
            r == AppError::Capture(e),
    {
        AppError::Capture(e)
    }
}

impl FromSpecImpl<CaptureError> for AppError {
    open spec fn obeys_from_spec() -> bool {
        true
    }

    open spec fn from_spec(v: CaptureError) -> Self {
        AppError::Capture(v)
    }
}

impl From<DetectError> for AppError {
    fn from(e: DetectError) -> (r: Self)
        ensures
            r == AppError::Detect(e),
    {
        AppError::Detect(e)
    }
}

impl FromSpecImpl<DetectError> for AppError {
    open spec fn obeys_from_spec() -> bool {
        true
    }

    open spec fn from_spec(v: DetectError) -> Self {
        AppError::Detect(v)
    }
}

impl From<AlignError> for AppError {
    fn from(e: AlignError) -> (r: Self)
        ensures
            r == AppError::Align(e),
    {
        AppError::Align(e)
    }
}

impl FromSpecImpl<AlignError> for AppError {
    open spec fn obeys_from_spec() -> bool {
        true
    }

    open spec fn from_spec(v: AlignError) -> Self {
        AppError::Align(v)
    }
}

impl From<LivenessError> for AppError {
    fn from(e: LivenessError) -> (r: Self)
        ensures
            r == AppError::Liveness(e),
    {
        AppError::Liveness(e)
    }
}

impl FromSpecImpl<LivenessError> for AppError {
    open spec fn obeys_from_spec() -> bool {
        true
    }

    open spec fn from_spec(v: LivenessError) -> Self {
        AppError::Liveness(v)
    }
}

impl From<PoseError> for AppError {
    fn from(e: PoseError) -> (r: Self)
        ensures
            r == AppError::Pose(e),
    {
        AppError::Pose(e)
    }
}

impl FromSpecImpl<PoseError> for AppError {
    open spec fn obeys_from_spec() -> bool {
        true
    }

    open spec fn from_spec(v: PoseError) -> Self {
        AppError::Pose(v)
    }
}

impl From<FaceEmbedError> for AppError {
    fn from(e: FaceEmbedError) -> (r: Self)
        ensures
            r == AppError::FaceEmbed(e),
    {
        AppError::FaceEmbed(e)
    }
}

impl FromSpecImpl<FaceEmbedError> for AppError {
    open spec fn obeys_from_spec() -> bool {
        true
    }

    open spec fn from_spec(v: FaceEmbedError) -> Self {
        AppError::FaceEmbed(v)
    }
}

impl From<StoreError> for AppError {
    fn from(e: StoreError) -> (r: Self)
        ensures
            r == AppError::Store(e),
    {
        AppError::Store(e)
    }
}

impl FromSpecImpl<StoreError> for AppError {
    open spec fn obeys_from_spec() -> bool {
        true
    }

    open spec fn from_spec(v: StoreError) -> Self {
        AppError::Store(v)
    }
}

} // verus!
