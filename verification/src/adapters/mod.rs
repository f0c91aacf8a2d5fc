//! Adapters whose behaviour is plain computation: mock camera, pass-through pipeline
//! stages, V4L payload decoding, and model input geometry.

pub mod face_aligner;
pub mod face_detector;
pub mod face_embedder;
pub mod face_pose;
pub mod health;
pub mod model_path;
pub mod template_store;
pub mod video;

pub use face_aligner::PassthroughFaceAligner;
pub use face_detector::FullFrameFaceDetector;
pub use face_pose::PassthroughFacePoseEstimator;
