//! The choices the daemon's composition root makes from its configuration.

use vstd::prelude::*;

use crate::config::{CameraConfig, DevelopmentConfig};
use crate::domain::frame::StreamModality;

verus! {

/// Message of the refusal of a camera configuration without exactly one stream.
pub open spec fn camera_choice_message() -> Seq<char> {
    "invalid config: enable exactly one of `camera.enable_rgb` or `camera.enable_ir`"@
}

impl CameraConfig {
    /// The one enabled stream and its device index; refused unless exactly one of RGB and
    /// IR is enabled.
    pub fn active_stream(&self) -> (r: Result<(StreamModality, u32), String>)
        ensures
            self.enable_rgb == self.enable_ir ==> (r matches Err(m) && m@
                == camera_choice_message()),
            self.enable_rgb && !self.enable_ir ==> r == Ok::<(StreamModality, u32), String>(
                (StreamModality::Rgb, self.rgb_index),
            ),
            !self.enable_rgb && self.enable_ir ==> r == Ok::<(StreamModality, u32), String>(
                (StreamModality::Ir, self.ir_index),
            ),
    {
        if self.enable_rgb == self.enable_ir {
            return Err(
                String::from_str(
                    "invalid config: enable exactly one of `camera.enable_rgb` or `camera.enable_ir`",
                ),
            );
        }
        if self.enable_rgb {
            Ok((StreamModality::Rgb, self.rgb_index))
        } else {
            Ok((StreamModality::Ir, self.ir_index))
        }
    }
}

impl DevelopmentConfig {
    /// The pose check is skipped when asked for, and when the stub detector gives no
    /// landmarks to check.
    pub fn use_passthrough_pose(&self) -> (r: bool)
        ensures
            r == (self.passthrough_pose_estimator || self.mock_detector),
    {
        self.passthrough_pose_estimator || self.mock_detector
    }
}

/// An optional directory setting counts only when it is not empty.
pub fn nonempty_path(setting: &Option<String>) -> (r: Option<String>)
    ensures
        setting matches Some(s) ==> (s@.len() > 0 ==> (r matches Some(t) && t@ == s@)),
        (setting is None || setting->Some_0@.len() == 0) ==> r is None,
{
    match setting {
        Some(s) => {
            if s.as_str().unicode_len() == 0 {
                None
            } else {
                Some(s.clone())
            }
        },
        None => None,
    }
}

} // verus!
