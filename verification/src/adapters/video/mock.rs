//! A camera stand-in that serves one fixed 2×2 gray frame forever.

use vstd::prelude::*;

use crate::domain::frame::{Frame, FrameView, PixelFormat, StreamModality};
use crate::ports::video::{FrameRead, SessionReads};
use crate::ports::{CaptureError, VideoSession, VideoSource};

verus! {

/// The frame every mock session serves: 2×2 gray pixels `0, 255, 128, 64`.
pub open spec fn mock_frame_view(modality: StreamModality) -> FrameView {
    FrameView {
        modality,
        width: 2,
        height: 2,
        format: PixelFormat::Gray8,
        bytes: seq![0u8, 255u8, 128u8, 64u8],
    }
}

/// A session that returns a copy of the same frame on every read.
pub struct MockVideoSession {
    frame: Frame,
}

impl MockVideoSession {
    pub closed spec fn spec_frame(&self) -> FrameView {
        self.frame@
    }

    /// The next frame: always the session's frame.
    pub fn read_frame(&mut self) -> (r: Result<Frame, CaptureError>)
        ensures
            final(self).spec_frame() == old(self).spec_frame(),
            r matches Ok(f) && f@ == old(self).spec_frame(),
    {
        Ok(self.frame.clone())
    }
}

impl VideoSession for MockVideoSession {
    /// Every read serves the fixed frame.
    open spec fn upcoming(&self, i: nat) -> FrameRead {
        Ok(self.spec_frame())
    }

    fn next_frame(&mut self) -> (r: Result<Frame, CaptureError>)
        ensures
            final(self).spec_frame() == old(self).spec_frame(),
            r matches Ok(f) && f@ == old(self).spec_frame(),
    {
        self.read_frame()
    }
}

/// A source whose sessions serve the fixed mock frame.
pub struct MockVideoSource {
    frame: Frame,
}

impl MockVideoSource {
    pub closed spec fn spec_frame(&self) -> FrameView {
        self.frame@
    }

    pub fn with_modality(modality: StreamModality) -> (r: Self)
        ensures
            r.spec_frame() == mock_frame_view(modality),
    {
        let bytes: Vec<u8> = vec![0u8, 255u8, 128u8, 64u8];
        assert(bytes@ =~= seq![0u8, 255u8, 128u8, 64u8]);
        let frame = match Frame::new(modality, 2, 2, PixelFormat::Gray8, bytes) {
            Ok(f) => f,
            Err(_) => vstd::pervasive::unreached(),
        };
        MockVideoSource { frame }
    }

    /// A fresh session serving this source's frame.
    pub fn open_mock_session(&self) -> (r: MockVideoSession)
        ensures
            r.spec_frame() == self.spec_frame(),
    {
        MockVideoSession { frame: self.frame.clone() }
    }
}

impl VideoSource for MockVideoSource {
    /// Opening always succeeds, with a session whose every read serves the source's frame.
    open spec fn may_open(&self, outcome: Result<SessionReads, CaptureError>) -> bool {
        outcome matches Ok(reads) && forall|i: nat| #[trigger] reads(i) == Ok::<
            FrameView,
            CaptureError,
        >(self.spec_frame())
    }

    fn modality(&self) -> (r: StreamModality)
        ensures
            r == self.spec_frame().modality,
    {
        self.frame.modality()
    }

    fn open_session(&self) -> (r: Result<Box<dyn VideoSession>, CaptureError>)
        ensures
            r matches Ok(s) && forall|i: nat| #[trigger] s.upcoming(i) == Ok::<
                FrameView,
                CaptureError,
            >(self.spec_frame()),
    {
        let s = self.open_mock_session();
        let r: Result<Box<dyn VideoSession>, CaptureError> = Ok(Box::new(s));
        r
    }
}

} // verus!
