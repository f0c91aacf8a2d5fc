//! TrueID: face-authentication decisions for a Linux daemon, its control tool and its PAM
//! module — frames and their pixel conversions, the quorum rule that accepts a face, the
//! rules of enrollment and verification, configuration defaults and the IPC protocol.

pub mod adapters;
pub mod application;
pub mod composition;
pub mod config;
pub mod ctl;
pub mod domain;
pub mod ipc;
pub mod pam;
pub mod ports;
pub mod text;

pub use adapters::video::{
    MockVideoSession, MockVideoSource, ParallelRgbIrCameraCapture, RgbOnlyCameraCapture,
};
pub use adapters::{
    FullFrameFaceDetector, PassthroughFaceAligner, PassthroughFacePoseEstimator,
};
pub use application::app::{StreamLimits, StreamingPolicy, VerifyStep, VerifyStream};
pub use application::error::AppError;
pub use application::pipeline::{EnrollPipelineMode, VerifyPipelineMode};
pub use application::verification_decision::{template_quorum_required, verify_burst, BurstDecision};
pub use config::{
    CameraConfig, CapturePolicyYaml, DevelopmentConfig, LoggingConfig, ModelsConfig, PathsConfig,
    StreamLimitsYaml, V4lConfig,
};
pub use domain::{
    DomainError, Frame, FrameError, FrameView, PixelFormat, StreamModality, TemplateBundle, UserId,
};
pub use ipc::{Request, Response, IPC_PROTOCOL_VERSION, IPC_READ_TIMEOUT_SECS, SOCKET_PATH};
pub use ports::{
    AlignError, BiometricVerifier, CaptureError, DetectError, EmbedError, FaceEmbedError, Health,
    HealthStatus, LivenessChecker, LivenessError, PoseError, StoreError, VideoSession, VideoSource,
};
