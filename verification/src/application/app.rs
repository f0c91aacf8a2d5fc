//! The rules of the application services `ping`, `verify`, `enroll` and `add_template`.
//!
//! The services pull frames from a camera session and run them through the face pipeline;
//! every decision they take between those steps is made here: whether the daemon may serve,
//! which stored templates count as an enrollment, how many frames to discard and to use,
//! when a verification stream accepts or gives up, and when a capture yields a template.

use vstd::prelude::*;

use crate::application::error::AppError;
use crate::application::verification_decision::{
    burst_accepts, probe_meets_quorum, rows_fit, verify_burst, BurstDecision,
};
use crate::domain::error::DomainError;
use crate::domain::templates::TemplateBundle;
use crate::ports::video::{
    first_failure, lemma_first_failure_stable, reads_after, spec_after_warmup, SessionReads,
};
use crate::ports::{CaptureError, HealthStatus, StoreError, VideoSession, VideoSource};

verus! {

/// Frames discarded while the camera settles, then frames used for one operation.
#[derive(Debug, Clone, Copy, PartialEq, Eq, Structural)]
pub struct StreamLimits {
    pub warmup_discard: u32,
    pub max_frames: u32,
}

impl StreamLimits {
    pub fn new(warmup_discard: u32, max_frames: u32) -> (r: Self)
        ensures
            r == (StreamLimits { warmup_discard, max_frames }),
    {
        StreamLimits { warmup_discard, max_frames }
    }

    /// The message of the error for `max_frames == 0`.
    pub open spec fn zero_frames_message() -> Seq<char> {
        "StreamLimits.max_frames must be >= 1"@
    }

    /// Accepts limits that use at least one frame.
    pub fn validate(self) -> (r: Result<Self, CaptureError>)
        ensures
            self.max_frames >= 1 ==> r == Ok::<StreamLimits, CaptureError>(self),
            self.max_frames == 0 ==> (r matches Err(CaptureError::Failed(m)) && m@
                == Self::zero_frames_message()),
    {
        if self.max_frames == 0 {
            return Err(CaptureError::Failed(String::from_str("StreamLimits.max_frames must be >= 1")));
        }
        Ok(self)
    }
}

/// Stream limits for enrollment and for verification.
#[derive(Debug, Clone, Copy, PartialEq, Eq, Structural)]
pub struct StreamingPolicy {
    pub enroll: StreamLimits,
    pub verify: StreamLimits,
}

impl StreamingPolicy {
    /// Enrollment discards 2 frames and uses 5; verification discards 2 and uses 3.
    pub open spec fn spec_default() -> StreamingPolicy {
        StreamingPolicy {
            enroll: StreamLimits { warmup_discard: 2, max_frames: 5 },
            verify: StreamLimits { warmup_discard: 2, max_frames: 3 },
        }
    }
}

impl Default for StreamingPolicy {
    fn default() -> (r: Self)
        ensures
            r == StreamingPolicy::spec_default(),
    {
        StreamingPolicy { enroll: StreamLimits::new(2, 5), verify: StreamLimits::new(2, 3) }
    }
}

/// Services run only while the daemon is healthy.
pub fn require_healthy(status: HealthStatus) -> (r: Result<(), AppError>)
    ensures
        status == HealthStatus::Healthy ==> r is Ok,
        status matches HealthStatus::Degraded { reason } ==> r == Err::<(), AppError>(
            AppError::Unhealthy(reason),
        ),
{
    match status {
        HealthStatus::Healthy => Ok(()),
        HealthStatus::Degraded { reason } => Err(AppError::Unhealthy(reason)),
    }
}

/// The user's enrollment, from what the template store returned: a bundle with at least
/// one template, else `NoEnrolledTemplate`; a store failure is passed on.
pub fn load_enrolled<E>(loaded: Result<Option<TemplateBundle<E>>, StoreError>) -> (r: Result<
    TemplateBundle<E>,
    AppError,
>)
    ensures
        loaded matches Err(e) ==> r == Err::<TemplateBundle<E>, AppError>(AppError::Store(e)),
        loaded matches Ok(Some(b)) ==> (b.templates@.len() > 0 ==> r == Ok::<
            TemplateBundle<E>,
            AppError,
        >(b)),
        (loaded is Ok && (loaded->Ok_0 is None || loaded->Ok_0->Some_0.templates@.len() == 0))
            ==> r == Err::<TemplateBundle<E>, AppError>(
            AppError::Domain(DomainError::NoEnrolledTemplate),
        ),
{
    match loaded {
        Err(e) => Err(AppError::Store(e)),
        Ok(Some(b)) => {
            if b.has_any_enrollment() {
                Ok(b)
            } else {
                Err(AppError::Domain(DomainError::NoEnrolledTemplate))
            }
        },
        Ok(None) => Err(AppError::Domain(DomainError::NoEnrolledTemplate)),
    }
}

/// First-time enrollment is refused when the store already holds a template for the user.
pub fn ensure_not_enrolled<E>(loaded: Result<Option<TemplateBundle<E>>, StoreError>) -> (r:
    Result<(), AppError>)
    ensures
        loaded matches Err(e) ==> r == Err::<(), AppError>(AppError::Store(e)),
        loaded matches Ok(Some(b)) ==> (b.templates@.len() > 0 ==> r == Err::<(), AppError>(
            AppError::Domain(DomainError::AlreadyEnrolled),
        )),
        (loaded is Ok && (loaded->Ok_0 is None || loaded->Ok_0->Some_0.templates@.len() == 0))
            ==> r is Ok,
{
    match loaded {
        Err(e) => Err(AppError::Store(e)),
        Ok(Some(b)) => {
            if b.has_any_enrollment() {
                Err(AppError::Domain(DomainError::AlreadyEnrolled))
            } else {
                Ok(())
            }
        },
        Ok(None) => Ok(()),
    }
}

/// Validates the limits, opens a session and discards the warmup frames; the session and
/// the limits are returned ready for `max_frames` reads.
pub fn open_capture(video: &dyn VideoSource, limits: StreamLimits) -> (r: Result<
    (Box<dyn VideoSession>, StreamLimits),
    AppError,
>)
    ensures
        limits.max_frames == 0 ==> (r matches Err(AppError::Capture(CaptureError::Failed(m)))
            && m@ == StreamLimits::zero_frames_message()),
        limits.max_frames >= 1 ==> exists|o: Result<SessionReads, CaptureError>|
            #[trigger] video.may_open(o) && match spec_after_warmup(
                o,
                limits.warmup_discard as nat,
            ) {
                Err(e) => r == Err::<(Box<dyn VideoSession>, StreamLimits), AppError>(
                    AppError::Capture(e),
                ),
                Ok(rest) => r matches Ok((s, l)) && l == limits && forall|i: nat|
                    #[trigger] s.upcoming(i) == rest(i),
            },
{
    let checked = match limits.validate() {
        Ok(l) => l,
        Err(e) => {
            return Err(AppError::Capture(e));
        },
    };
    let mut session = match video.open_session() {
        Ok(s) => s,
        Err(e) => {
            proof {
                assert(video.may_open(Err(e)));
            }
            return Err(AppError::Capture(e));
        },
    };
    let ghost reads: SessionReads = |i: nat| session.upcoming(i);
    assert(video.may_open(Ok(reads)));
    let ghost w = checked.warmup_discard as nat;
    let mut i: u32 = 0;
    while i < checked.warmup_discard
        invariant
            i <= checked.warmup_discard,
            checked == limits,
            checked.max_frames >= 1,
            w == checked.warmup_discard,
            video.may_open(Ok(reads)),
            first_failure(reads, i as nat) is None,
            forall|j: nat| #[trigger] session.upcoming(j) == reads((j + i) as nat),
        decreases checked.warmup_discard - i,
    {
        let ghost before = reads(i as nat);
        assert(session.upcoming(0) == reads((0 + i) as nat));
        match session.next_frame() {
            Ok(_) => {},
            Err(e) => {
                proof {
                    assert(first_failure(reads, (i + 1) as nat) == Some(e));
                    lemma_first_failure_stable(reads, (i + 1) as nat, w);
                    assert(spec_after_warmup(Ok(reads), w) == Err::<SessionReads, CaptureError>(e));
                }
                return Err(AppError::Capture(e));
            },
        }
        assert forall|j: nat| #[trigger] session.upcoming(j) == reads((j + (i + 1)) as nat) by {
            assert(j + 1 + i == j + (i + 1));
        }
        i = i + 1;
    }
    proof {
        let rest = reads_after(reads, w);
        assert(spec_after_warmup(Ok(reads), w) == Ok::<SessionReads, CaptureError>(rest));
        assert forall|j: nat| #[trigger] session.upcoming(j) == rest(j) by {}
    }
    let ghost gsess = session;
    let pair = (session, checked);
    assert(pair.0.upcoming(0) == gsess.upcoming(0));
    let r: Result<(Box<dyn VideoSession>, StreamLimits), AppError> = Ok(pair);
    r
}

/// A capture yields a template only when some frame produced an embedding and the
/// embeddings could be averaged (`averaged` is the average of the collected embeddings).
pub fn template_from_capture<E>(collected: usize, averaged: Option<E>) -> (r: Result<
    E,
    AppError,
>)
    ensures
        collected == 0 ==> r == Err::<E, AppError>(
            AppError::Domain(DomainError::NoUsableFaceInCapture),
        ),
        collected > 0 && averaged is None ==> r == Err::<E, AppError>(
            AppError::Domain(DomainError::EmbeddingAggregationFailed),
        ),
        averaged matches Some(t) ==> (collected > 0 ==> r == Ok::<E, AppError>(t)),
{
    if collected == 0 {
        return Err(AppError::Domain(DomainError::NoUsableFaceInCapture));
    }
    match averaged {
        Some(t) => Ok(t),
        None => Err(AppError::Domain(DomainError::EmbeddingAggregationFailed)),
    }
}

/// What a verification stream asks for after a frame.
#[derive(Debug, Clone, Copy, PartialEq, Eq, Structural)]
pub enum VerifyStep {
    /// Read and evaluate another frame.
    NextFrame,
    /// Some frame met the quorum: the user is verified.
    Accept,
    /// Every frame was used and none met the quorum.
    Reject,
}

/// The step a verification stream takes once it has seen the frames `seen`.
pub open spec fn stream_step(
    template_count: nat,
    max_frames: nat,
    seen: Seq<Option<Seq<bool>>>,
) -> VerifyStep {
    if burst_accepts(template_count, seen) {
        VerifyStep::Accept
    } else if seen.len() == max_frames {
        VerifyStep::Reject
    } else {
        VerifyStep::NextFrame
    }
}

/// Index of the first frame that meets the quorum, or the number of frames when none does.
pub open spec fn first_quorum_frame(template_count: nat, probes: Seq<Option<Seq<bool>>>) -> nat
    decreases probes.len(),
{
    if probes.len() == 0 {
        0
    } else {
        let q = first_quorum_frame(template_count, probes.drop_last());
        if q < probes.len() - 1 {
            q
        } else if probe_meets_quorum(template_count, probes.last()) {
            (probes.len() - 1) as nat
        } else {
            probes.len()
        }
    }
}

proof fn lemma_first_quorum_frame(template_count: nat, probes: Seq<Option<Seq<bool>>>)
    ensures
        first_quorum_frame(template_count, probes) <= probes.len(),
        forall|i: int|
            0 <= i < first_quorum_frame(template_count, probes) ==> !probe_meets_quorum(
                template_count,
                #[trigger] probes[i],
            ),
        first_quorum_frame(template_count, probes) < probes.len() ==> probe_meets_quorum(
            template_count,
            probes[first_quorum_frame(template_count, probes) as int],
        ),
    decreases probes.len(),
{
    if probes.len() > 0 {
        let front = probes.drop_last();
        lemma_first_quorum_frame(template_count, front);
        assert forall|i: int| 0 <= i < front.len() implies front[i] == probes[i] by {}
    }
}

/// A verification stream over the frames `probes` (as many as `max_frames`) takes the next
/// frame until the first frame that meets the quorum, and there accepts; when no frame does,
/// it reads them all and rejects. So it reads `first_quorum_frame + 1` frames, or all of them,
/// and its answer is the decision over the whole burst.
pub proof fn lemma_stream_stops_at_first_quorum(
    template_count: nat,
    probes: Seq<Option<Seq<bool>>>,
)
    requires
        template_count > 0,
        probes.len() >= 1,
    ensures
        ({
            let m = probes.len();
            let q = first_quorum_frame(template_count, probes);
            let stop = if q < m { q } else { (m - 1) as nat };
            &&& forall|k: int|
                0 <= k < stop ==> stream_step(template_count, m, #[trigger] probes.take(k + 1))
                    == VerifyStep::NextFrame
            &&& stream_step(template_count, m, probes.take(stop + 1 as int)) == (if burst_accepts(
                template_count,
                probes,
            ) {
                VerifyStep::Accept
            } else {
                VerifyStep::Reject
            })
            &&& (q < m <==> burst_accepts(template_count, probes))
        }),
{
    let m = probes.len();
    lemma_first_quorum_frame(template_count, probes);
    let q = first_quorum_frame(template_count, probes);
    let stop = if q < m { q } else { (m - 1) as nat };
    assert forall|k: int| 0 <= k < stop implies stream_step(
        template_count,
        m,
        #[trigger] probes.take(k + 1),
    ) == VerifyStep::NextFrame by {
        let seen = probes.take(k + 1);
        if burst_accepts(template_count, seen) {
            let i = choose|i: int|
                0 <= i < seen.len() && #[trigger] probe_meets_quorum(template_count, seen[i]);
            assert(seen[i] == probes[i]);
        }
    }
    if q < m {
        let seen = probes.take(q + 1 as int);
        assert(seen[q as int] == probes[q as int]);
        assert(probe_meets_quorum(template_count, seen[q as int]));
        assert(burst_accepts(template_count, seen));
        assert(probe_meets_quorum(template_count, probes[q as int]));
        assert(burst_accepts(template_count, probes));
    } else {
        assert(probes.take(m as int) =~= probes);
        if burst_accepts(template_count, probes) {
            let i = choose|i: int|
                0 <= i < probes.len() && #[trigger] probe_meets_quorum(template_count, probes[i]);
            assert(!probe_meets_quorum(template_count, probes[i]));
        }
    }
}

/// What a verification stream has seen, as plain values.
pub struct VerifyStreamView {
    pub template_count: nat,
    pub max_frames: nat,
    pub probes: Seq<Option<Seq<bool>>>,
}

/// The decisions of one verification stream: after each frame the whole burst seen so far
/// is decided again, and the stream stops at the first acceptance or after `max_frames`.
pub struct VerifyStream {
    template_count: usize,
    max_frames: u32,
    probes: Vec<Option<Vec<bool>>>,
}

impl View for VerifyStream {
    type V = VerifyStreamView;

    closed spec fn view(&self) -> VerifyStreamView {
        VerifyStreamView {
            template_count: self.template_count as nat,
            max_frames: self.max_frames as nat,
            probes: self.probes.deep_view(),
        }
    }
}

impl VerifyStream {
    /// A stream against `template_count` templates, after validating the limits.
    pub fn start(template_count: usize, limits: StreamLimits) -> (r: Result<Self, CaptureError>)
        ensures
            limits.max_frames == 0 ==> (r matches Err(CaptureError::Failed(m)) && m@
                == StreamLimits::zero_frames_message()),
            limits.max_frames >= 1 ==> (r matches Ok(s) && s@.template_count == template_count
                && s@.max_frames == limits.max_frames && s@.probes == Seq::<
                Option<Seq<bool>>,
            >::empty()),
    {
        let limits = limits.validate()?;
        let s = VerifyStream { template_count, max_frames: limits.max_frames, probes: Vec::new() };
        assert(s.probes.deep_view() =~= Seq::<Option<Seq<bool>>>::empty());
        Ok(s)
    }

    /// Records the next frame (`probe` is `None` when it produced no embedding, else its
    /// match result against each template) and decides what comes next.
    pub fn push(&mut self, probe: Option<Vec<bool>>) -> (r: VerifyStep)
        requires
            old(self)@.probes.len() < old(self)@.max_frames,
            rows_fit(old(self)@.template_count, old(self)@.probes),
            probe matches Some(row) ==> row@.len() == old(self)@.template_count,
        ensures
            final(self)@.template_count == old(self)@.template_count,
            final(self)@.max_frames == old(self)@.max_frames,
            final(self)@.probes == old(self)@.probes.push(probe.deep_view()),
            rows_fit(final(self)@.template_count, final(self)@.probes),
            (r == VerifyStep::Accept) == burst_accepts(
                final(self)@.template_count,
                final(self)@.probes,
            ),
            (r == VerifyStep::Reject) == (!burst_accepts(
                final(self)@.template_count,
                final(self)@.probes,
            ) && final(self)@.probes.len() == final(self)@.max_frames),
            r == stream_step(
                final(self)@.template_count,
                final(self)@.max_frames,
                final(self)@.probes,
            ),
    {
        let ghost old_probes = self.probes.deep_view();
        let ghost p = probe.deep_view();
        proof {
            if probe is Some {
                assert(probe->Some_0.deep_view() =~= probe->Some_0@);
            }
        }
        self.probes.push(probe);
        assert(self.probes.deep_view() =~= old_probes.push(p));
        let decision = verify_burst(self.template_count, self.probes.as_slice());
        if decision.accepted {
            VerifyStep::Accept
        } else if self.probes.len() as u64 >= self.max_frames as u64 {
            VerifyStep::Reject
        } else {
            VerifyStep::NextFrame
        }
    }

    /// The decision over every frame seen so far (for reporting).
    pub fn decision(&self) -> (r: BurstDecision)
        requires
            rows_fit(self@.template_count, self@.probes),
        ensures
            r.accepted == burst_accepts(self@.template_count, self@.probes),
    {
        verify_burst(self.template_count, self.probes.as_slice())
    }

    /// Number of frames seen so far.
    pub fn frames_seen(&self) -> (r: usize)
        ensures
            r == self@.probes.len(),
    {
        self.probes.len()
    }
}

} // verus!
