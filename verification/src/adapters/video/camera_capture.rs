//! Burst capture over [`VideoSource`]: RGB only, or RGB plus IR.

use vstd::prelude::*;

use std::sync::Arc;

use crate::application::app::StreamLimits;
use crate::domain::frame::{Frame, FrameView};
use crate::ports::video::{
    first_failure, frames_view, lemma_first_failure_stable, lemma_reads_made_stable,
    lemma_spec_burst_flat, reads_made, spec_burst, SessionReads,
};
use crate::ports::{CaptureError, VideoSession, VideoSource};

verus! {

/// Frames of one burst: the RGB stream's, and the IR stream's when there is one.
pub struct CapturedBurst {
    pub rgb: Vec<Frame>,
    pub ir: Option<Vec<Frame>>,
}

/// A burst result as plain values.
pub open spec fn burst_view(r: Result<Vec<Frame>, CaptureError>) -> Result<Seq<FrameView>, CaptureError> {
    match r {
        Ok(frames) => Ok(frames_view(frames@)),
        Err(e) => Err(e),
    }
}

/// Reads a burst from an open session: `warmup` reads are dropped, the next `count` frames
/// kept. Reading stops at the first failed read, whose error is passed on; otherwise exactly
/// `warmup + count` reads are made.
pub fn read_burst(session: &mut Box<dyn VideoSession>, warmup: u32, count: u32) -> (r: Result<
    Vec<Frame>,
    CaptureError,
>)
    ensures
        burst_view(r) == spec_burst(
            Ok(|i: nat| old(session).upcoming(i)),
            warmup as nat,
            count as nat,
        ),
        forall|i: nat| #[trigger]
            final(session).upcoming(i) == old(session).upcoming(
                i + reads_made(|k: nat| old(session).upcoming(k), (warmup + count) as nat),
            ),
{
    let ghost reads: SessionReads = |i: nat| session.upcoming(i);
    let ghost w = warmup as nat;
    let ghost c = count as nat;
    proof {
        lemma_spec_burst_flat(reads, w, c);
    }
    let total: u64 = warmup as u64 + count as u64;
    let mut frames: Vec<Frame> = Vec::new();
    let mut j: u64 = 0;
    while j < total
        invariant
            w == warmup,
            c == count,
            reads == (|i: nat| old(session).upcoming(i)),
            total == w + c,
            j <= total,
            first_failure(reads, j as nat) is None,
            forall|i: nat| #[trigger] session.upcoming(i) == reads((i + j) as nat),
            frames@.len() == (if j > w { j - w } else { 0 }),
            forall|q: int| 0 <= q < frames@.len() ==> #[trigger] frames@[q]@ == reads(
                (q + w) as nat,
            )->Ok_0,
            forall|q: int| 0 <= q < frames@.len() ==> #[trigger] reads((q + w) as nat) is Ok,
            spec_burst(Ok(reads), w, c) == match first_failure(reads, w + c) {
                Some(e) => Err(e),
                None => Ok(Seq::new(c, |i: int| reads((i + w) as nat)->Ok_0)),
            },
        decreases total - j,
    {
        assert(session.upcoming(0) == reads((0 + j) as nat));
        match session.next_frame() {
            Ok(f) => {
                if j >= warmup as u64 {
                    frames.push(f);
                }
            },
            Err(e) => {
                proof {
                    assert(first_failure(reads, (j + 1) as nat) == Some(e));
                    lemma_first_failure_stable(reads, (j + 1) as nat, w + c);
                    lemma_reads_made_stable(reads, (j + 1) as nat, w + c);
                    assert(reads_made(reads, (j + 1) as nat) == j + 1);
                    assert forall|i: nat| #[trigger] session.upcoming(i) == reads(
                        i + reads_made(reads, w + c),
                    ) by {
                        assert(i + 1 + j == i + (j + 1));
                    }
                }
                return Err(e);
            },
        }
        assert forall|i: nat| #[trigger] session.upcoming(i) == reads((i + (j + 1)) as nat) by {
            assert(i + 1 + j == i + (j + 1));
        }
        j = j + 1;
    }
    proof {
        assert(frames_view(frames@) =~= Seq::new(c, |i: int| reads((i + w) as nat)->Ok_0));
        assert(reads_made(reads, w + c) == w + c);
    }
    Ok(frames)
}

/// Opens a session on `source`, discards `warmup_discard` frames and returns the next
/// `max_frames` frames; an error of the opening or of any read is passed on.
pub fn capture_burst<S: VideoSource + ?Sized>(source: &S, limits: StreamLimits) -> (r: Result<
    Vec<Frame>,
    CaptureError,
>)
    ensures
        limits.max_frames == 0 ==> (r matches Err(CaptureError::Failed(m)) && m@
            == StreamLimits::zero_frames_message()),
        limits.max_frames >= 1 ==> exists|o: Result<SessionReads, CaptureError>|
            #[trigger] source.may_open(o) && burst_view(r) == spec_burst(
                o,
                limits.warmup_discard as nat,
                limits.max_frames as nat,
            ),
        r matches Ok(frames) ==> frames@.len() == limits.max_frames && limits.max_frames >= 1,
{
    let checked = limits.validate()?;
    let ghost w = checked.warmup_discard as nat;
    let ghost m = checked.max_frames as nat;
    let mut session = match source.open_session() {
        Ok(s) => s,
        Err(e) => {
            proof {
                assert(source.may_open(Err(e)));
                assert(burst_view(Err(e)) == spec_burst(Err(e), w, m));
            }
            return Err(e);
        },
    };
    let ghost reads: SessionReads = |i: nat| session.upcoming(i);
    assert(source.may_open(Ok(reads)));
    let r = read_burst(&mut session, checked.warmup_discard, checked.max_frames);
    proof {
        lemma_spec_burst_flat(reads, w, m);
        if r is Ok {
            assert(frames_view(r->Ok_0@).len() == m);
        }
    }
    r
}

/// Captures bursts from one RGB source (`S` is the source type, usually `dyn VideoSource`).
pub struct RgbOnlyCameraCapture<S: VideoSource + ?Sized> {
    rgb: Arc<S>,
}

impl<S: VideoSource + ?Sized> RgbOnlyCameraCapture<S> {
    pub closed spec fn spec_rgb(&self) -> Arc<S> {
        self.rgb
    }

    pub fn new(rgb: Arc<S>) -> (r: Self)
        ensures
            r.spec_rgb() == rgb,
    {
        RgbOnlyCameraCapture { rgb }
    }

    /// A burst from the RGB source (as [`capture_burst`]); there is no IR part.
    pub fn capture(&self, limits: StreamLimits) -> (r: Result<CapturedBurst, CaptureError>)
        ensures
            limits.max_frames == 0 ==> (r matches Err(CaptureError::Failed(m)) && m@
                == StreamLimits::zero_frames_message()),
            limits.max_frames >= 1 ==> exists|o: Result<SessionReads, CaptureError>|
                #[trigger] (*self.spec_rgb()).may_open(o) && match spec_burst(
                    o,
                    limits.warmup_discard as nat,
                    limits.max_frames as nat,
                ) {
                    Ok(fs) => r matches Ok(b) && frames_view(b.rgb@) == fs && b.ir is None,
                    Err(e) => r == Err::<CapturedBurst, CaptureError>(e),
                },
            r matches Ok(b) ==> b.rgb@.len() == limits.max_frames && b.ir is None,
    {
        let res = capture_burst(&*self.rgb, limits);
        let ghost o = choose|o: Result<SessionReads, CaptureError>|
            #[trigger] (*self.rgb).may_open(o) && burst_view(res) == spec_burst(
                o,
                limits.warmup_discard as nat,
                limits.max_frames as nat,
            );
        match res {
            Ok(rgb) => {
                let r = CapturedBurst { rgb, ir: None };
                assert((*self.spec_rgb()).may_open(o));
                Ok(r)
            },
            Err(e) => {
                assert(limits.max_frames >= 1 ==> (*self.spec_rgb()).may_open(o));
                Err(e)
            },
        }
    }
}

/// Captures bursts from an RGB and an IR source together (`S` as for
/// [`RgbOnlyCameraCapture`]).
pub struct ParallelRgbIrCameraCapture<S: VideoSource + ?Sized> {
    rgb: Arc<S>,
    ir: Arc<S>,
}

impl<S: VideoSource + ?Sized> ParallelRgbIrCameraCapture<S> {
    pub closed spec fn spec_rgb(&self) -> Arc<S> {
        self.rgb
    }

    pub closed spec fn spec_ir(&self) -> Arc<S> {
        self.ir
    }

    pub fn new(rgb: Arc<S>, ir: Arc<S>) -> (r: Self)
        ensures
            r.spec_rgb() == rgb,
            r.spec_ir() == ir,
    {
        ParallelRgbIrCameraCapture { rgb, ir }
    }

    pub fn rgb(&self) -> (r: &Arc<S>)
        ensures
            *r == self.spec_rgb(),
    {
        &self.rgb
    }

    pub fn ir(&self) -> (r: &Arc<S>)
        ensures
            *r == self.spec_ir(),
    {
        &self.ir
    }

    /// Joins the two streams' results into one burst; the RGB stream's error comes first.
    pub fn join_bursts(
        rgb: Result<Vec<Frame>, CaptureError>,
        ir: Result<Vec<Frame>, CaptureError>,
    ) -> (r: Result<CapturedBurst, CaptureError>)
        ensures
            rgb matches Err(e) ==> r == Err::<CapturedBurst, CaptureError>(e),
            ir matches Err(e) ==> (rgb is Ok ==> r == Err::<CapturedBurst, CaptureError>(e)),
            rgb is Ok && ir is Ok ==> (r matches Ok(b) && b.rgb == rgb->Ok_0 && b.ir == Some(
                ir->Ok_0,
            )),
    {
        let rgb = rgb?;
        let ir = ir?;
        Ok(CapturedBurst { rgb, ir: Some(ir) })
    }
}

} // verus!
