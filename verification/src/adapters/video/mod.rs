//! Camera sources and raw payload decoding.

pub mod mock;

pub use mock::{MockVideoSession, MockVideoSource};
pub mod camera_capture;

pub use camera_capture::{
    capture_burst, read_burst, CapturedBurst, ParallelRgbIrCameraCapture, RgbOnlyCameraCapture,
};
pub mod v4l_decode;
