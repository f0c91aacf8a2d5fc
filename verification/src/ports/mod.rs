//! Outbound ports: the errors and traits the application uses to talk to the outside world.

pub mod biometric;
pub mod embedder;
pub mod face_aligner;
pub mod face_detector;
pub mod face_embedder;
pub mod face_pose;
pub mod health;
pub mod liveness;
pub mod template_store;
pub mod video;

pub use biometric::BiometricVerifier;
pub use embedder::EmbedError;
pub use face_aligner::AlignError;
pub use face_detector::DetectError;
pub use face_embedder::FaceEmbedError;
pub use face_pose::PoseError;
pub use health::{Health, HealthStatus};
pub use liveness::{LivenessChecker, LivenessError};
pub use template_store::StoreError;
pub use video::{CaptureError, VideoSession, VideoSource};
