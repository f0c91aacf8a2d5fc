//! Daemon configuration: the plain settings the composition reads, with their defaults.
//! Parsing YAML into these types happens outside the library.

use vstd::prelude::*;

use crate::application::app::{StreamLimits, StreamingPolicy};

verus! {

/// Log filter.
#[derive(Debug, Clone)]
pub struct LoggingConfig {
    pub level: String,
}

impl Default for LoggingConfig {
    fn default() -> (r: Self)
        ensures
            r.level@ == "info"@,
    {
        LoggingConfig { level: String::from_str("info") }
    }
}

/// Orientation fixes for V4L sensors.
#[derive(Debug, Clone, Copy, PartialEq, Eq, Structural)]
pub struct V4lConfig {
    pub rotate_180: bool,
    pub flip_vertical: bool,
}

impl Default for V4lConfig {
    fn default() -> (r: Self)
        ensures
            r == (V4lConfig { rotate_180: false, flip_vertical: false }),
    {
        V4lConfig { rotate_180: false, flip_vertical: false }
    }
}

/// Which camera to use and how.
#[derive(Debug, Clone, Copy, PartialEq, Eq, Structural)]
pub struct CameraConfig {
    pub rgb_index: u32,
    pub enable_rgb: bool,
    pub ir_index: u32,
    pub enable_ir: bool,
    pub width: u32,
    pub height: u32,
    pub mock: bool,
    pub v4l: V4lConfig,
}

impl CameraConfig {
    /// RGB camera 0 enabled, IR camera 2 disabled, 640×480, real device, no V4L fixes.
    pub open spec fn spec_default() -> CameraConfig {
        CameraConfig {
            rgb_index: 0,
            enable_rgb: true,
            ir_index: 2,
            enable_ir: false,
            width: 640,
            height: 480,
            mock: false,
            v4l: V4lConfig { rotate_180: false, flip_vertical: false },
        }
    }
}

impl Default for CameraConfig {
    fn default() -> (r: Self)
        ensures
            r == CameraConfig::spec_default(),
    {
        CameraConfig {
            rgb_index: 0,
            ir_index: 2,
            enable_rgb: true,
            enable_ir: false,
            width: 640,
            height: 480,
            mock: false,
            v4l: V4lConfig::default(),
        }
    }
}

/// Where the ONNX models live.
#[derive(Debug, Clone)]
pub struct ModelsConfig {
    pub face_embedding: String,
    pub face_detector: String,
}

impl Default for ModelsConfig {
    fn default() -> (r: Self)
        ensures
            r.face_embedding@ == "/var/lib/trueid/models/face_embedding.onnx"@,
            r.face_detector@ == "/var/lib/trueid/models/face_detection_yunet_2023mar.onnx"@,
    {
        ModelsConfig {
            face_embedding: String::from_str("/var/lib/trueid/models/face_embedding.onnx"),
            face_detector: String::from_str(
                "/var/lib/trueid/models/face_detection_yunet_2023mar.onnx",
            ),
        }
    }
}

/// Template directory and optional debug dump directories.
#[derive(Debug, Clone)]
pub struct PathsConfig {
    pub templates: String,
    pub debug_aligned_faces: Option<String>,
    pub debug_v4l_frames: Option<String>,
}

impl Default for PathsConfig {
    fn default() -> (r: Self)
        ensures
            r.templates@ == "/var/lib/trueid/templates"@,
            r.debug_aligned_faces is None,
            r.debug_v4l_frames is None,
    {
        PathsConfig {
            templates: String::from_str("/var/lib/trueid/templates"),
            debug_aligned_faces: None,
            debug_v4l_frames: None,
        }
    }
}

/// Stream limits as written in the configuration (`frame_count` is accepted for
/// `max_frames`).
#[derive(Debug, Clone, Copy, PartialEq, Eq, Structural)]
pub struct StreamLimitsYaml {
    pub warmup_discard: u32,
    pub max_frames: u32,
}

impl StreamLimitsYaml {
    pub fn from_limits(limits: StreamLimits) -> (r: Self)
        ensures
            r.warmup_discard == limits.warmup_discard,
            r.max_frames == limits.max_frames,
    {
        StreamLimitsYaml { warmup_discard: limits.warmup_discard, max_frames: limits.max_frames }
    }

    pub fn to_limits(&self) -> (r: StreamLimits)
        ensures
            r.warmup_discard == self.warmup_discard,
            r.max_frames == self.max_frames,
    {
        StreamLimits::new(self.warmup_discard, self.max_frames)
    }
}

impl Default for StreamLimitsYaml {
    /// Omitted limits are the verification defaults.
    fn default() -> (r: Self)
        ensures
            r.warmup_discard == StreamingPolicy::spec_default().verify.warmup_discard,
            r.max_frames == StreamingPolicy::spec_default().verify.max_frames,
    {
        Self::from_limits(StreamingPolicy::default().verify)
    }
}

/// Enrollment and verification limits as written in the configuration.
#[derive(Debug, Clone, Copy, PartialEq, Eq, Structural)]
pub struct CapturePolicyYaml {
    pub enroll: StreamLimitsYaml,
    pub verify: StreamLimitsYaml,
}

impl CapturePolicyYaml {
    /// The core streaming policy these settings describe.
    pub fn streaming_policy(&self) -> (r: StreamingPolicy)
        ensures
            r.enroll == (StreamLimits {
                warmup_discard: self.enroll.warmup_discard,
                max_frames: self.enroll.max_frames,
            }),
            r.verify == (StreamLimits {
                warmup_discard: self.verify.warmup_discard,
                max_frames: self.verify.max_frames,
            }),
    {
        StreamingPolicy { enroll: self.enroll.to_limits(), verify: self.verify.to_limits() }
    }
}

impl Default for CapturePolicyYaml {
    /// Omitted capture settings are the core policy's defaults.
    fn default() -> (r: Self)
        ensures
            r.enroll.warmup_discard == StreamingPolicy::spec_default().enroll.warmup_discard,
            r.enroll.max_frames == StreamingPolicy::spec_default().enroll.max_frames,
            r.verify.warmup_discard == StreamingPolicy::spec_default().verify.warmup_discard,
            r.verify.max_frames == StreamingPolicy::spec_default().verify.max_frames,
    {
        let policy = StreamingPolicy::default();
        CapturePolicyYaml {
            enroll: StreamLimitsYaml::from_limits(policy.enroll),
            verify: StreamLimitsYaml::from_limits(policy.verify),
        }
    }
}

/// Development switches that replace pipeline stages with stand-ins.
#[derive(Debug, Clone, Copy, PartialEq, Eq, Structural)]
pub struct DevelopmentConfig {
    pub mock_embedder: bool,
    pub mock_detector: bool,
    pub passthrough_aligner: bool,
    pub passthrough_pose_estimator: bool,
}

impl Default for DevelopmentConfig {
    fn default() -> (r: Self)
        ensures
            r == (DevelopmentConfig {
                mock_embedder: false,
                mock_detector: false,
                passthrough_aligner: false,
                passthrough_pose_estimator: false,
            }),
    {
        DevelopmentConfig {
            mock_embedder: false,
            mock_detector: false,
            passthrough_aligner: false,
            passthrough_pose_estimator: false,
        }
    }
}

/// Index of the first candidate configuration file that exists, in order.
pub fn resolve_config_path(exists: &[bool]) -> (r: Option<usize>)
    ensures
        r matches Some(i) ==> i < exists@.len() && exists@[i as int] && forall|k: int|
            0 <= k < i ==> !exists@[k],
        r is None ==> forall|k: int| 0 <= k < exists@.len() ==> !exists@[k],
{
    let mut i: usize = 0;
    while i < exists.len()
        invariant
            i <= exists@.len(),
            forall|k: int| 0 <= k < i ==> !exists@[k],
        decreases exists@.len() - i,
    {
        if exists[i] {
            return Some(i);
        }
        i = i + 1;
    }
    None
}

} // verus!
