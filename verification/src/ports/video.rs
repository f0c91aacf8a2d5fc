use vstd::prelude::*;

use crate::domain::frame::{Frame, FrameView, StreamModality};

verus! {

/// Failure while opening or reading a camera stream.
#[derive(Debug, Clone, PartialEq, Eq)]
pub enum CaptureError {
    Failed(String),
}

impl CaptureError {
    pub open spec fn spec_message(&self) -> Seq<char> {
        match self {
            CaptureError::Failed(m) => m@,
        }
    }

    pub fn message(&self) -> (r: String)
        ensures
            r@ == self.spec_message(),
    {
        match self {
            CaptureError::Failed(m) => m.clone(),
        }
    }
}

/// The outcome of one frame read, as plain values.
pub type FrameRead = Result<FrameView, CaptureError>;

/// The reads a session will deliver, in order: entry `i` is the outcome of the `i`-th read
/// from now.
pub type SessionReads = spec_fn(nat) -> FrameRead;

/// A frame read result as plain values.
pub open spec fn read_view(r: Result<Frame, CaptureError>) -> FrameRead {
    match r {
        Ok(f) => Ok(f@),
        Err(e) => Err(e),
    }
}

/// One open camera stream: pull frames sequentially until the session is dropped.
pub trait VideoSession: Send {
    /// The outcome of the `i`-th read from now. A session that does not describe its reads
    /// leaves them unspecified: the default is closed, so nothing can be concluded from it.
    closed spec fn upcoming(&self, i: nat) -> FrameRead {
        vstd::pervasive::arbitrary()
    }

    /// Reads the next frame: the first upcoming outcome, after which the rest move up by one.
    fn next_frame(&mut self) -> (r: Result<Frame, CaptureError>)
        ensures
            read_view(r) == old(self).upcoming(0),
            forall|i: nat| #[trigger] final(self).upcoming(i) == old(self).upcoming(i + 1),
    ;
}

/// The first failed read among the first `n` reads, if any.
pub open spec fn first_failure(reads: SessionReads, n: nat) -> Option<CaptureError>
    decreases n,
{
    if n == 0 {
        None
    } else {
        match first_failure(reads, (n - 1) as nat) {
            Some(e) => Some(e),
            None => match reads((n - 1) as nat) {
                Ok(_) => None,
                Err(e) => Some(e),
            },
        }
    }
}

/// Once a failure is among the first `k` reads, it is the first failure among any more.
pub proof fn lemma_first_failure_stable(reads: SessionReads, k: nat, n: nat)
    requires
        k <= n,
        first_failure(reads, k) is Some,
    ensures
        first_failure(reads, n) == first_failure(reads, k),
    decreases n,
{
    if n > k {
        lemma_first_failure_stable(reads, k, (n - 1) as nat);
    }
}

/// The reads left after skipping the first `skip`.
pub open spec fn reads_after(reads: SessionReads, skip: nat) -> SessionReads {
    |i: nat| reads(i + skip)
}

/// Opening a session and reading `warmup` frames that are dropped: the reads still to come,
/// or the error of the opening or of the first failed warmup read.
pub open spec fn spec_after_warmup(opened: Result<SessionReads, CaptureError>, warmup: nat) -> Result<
    SessionReads,
    CaptureError,
> {
    match opened {
        Err(e) => Err(e),
        Ok(reads) => match first_failure(reads, warmup) {
            Some(e) => Err(e),
            None => Ok(reads_after(reads, warmup)),
        },
    }
}

/// A burst: after the warmup, the next `count` frames, or the first error.
pub open spec fn spec_burst(
    opened: Result<SessionReads, CaptureError>,
    warmup: nat,
    count: nat,
) -> Result<Seq<FrameView>, CaptureError> {
    match spec_after_warmup(opened, warmup) {
        Err(e) => Err(e),
        Ok(rest) => match first_failure(rest, count) {
            Some(e) => Err(e),
            None => Ok(Seq::new(count, |i: int| rest(i as nat)->Ok_0)),
        },
    }
}

/// How many reads are made when reading up to `n` frames and stopping at the first failed
/// read: `n` when none of them fails, else up to and including the failed one.
pub open spec fn reads_made(reads: SessionReads, n: nat) -> nat
    decreases n,
{
    if n == 0 {
        0
    } else if first_failure(reads, (n - 1) as nat) is Some {
        reads_made(reads, (n - 1) as nat)
    } else {
        n
    }
}

/// Once a read among the first `k` failed, reading up to any more frames makes no more reads.
pub proof fn lemma_reads_made_stable(reads: SessionReads, k: nat, n: nat)
    requires
        k <= n,
        first_failure(reads, k) is Some,
    ensures
        reads_made(reads, n) == reads_made(reads, k),
    decreases n,
{
    if n > k {
        lemma_first_failure_stable(reads, k, (n - 1) as nat);
        lemma_reads_made_stable(reads, k, (n - 1) as nat);
    }
}

/// After a warmup without failure, the failures of the later reads are those of the reads
/// that remain.
pub proof fn lemma_first_failure_after(reads: SessionReads, warmup: nat, k: nat)
    requires
        first_failure(reads, warmup) is None,
    ensures
        first_failure(reads, warmup + k) == first_failure(reads_after(reads, warmup), k),
    decreases k,
{
    if k > 0 {
        lemma_first_failure_after(reads, warmup, (k - 1) as nat);
        assert((warmup + k - 1) as nat == (k - 1) as nat + warmup);
    }
}

/// A burst read from a session, as one pass over `warmup + count` reads: the first failure
/// among them, else the `count` frames after the warmup.
pub proof fn lemma_spec_burst_flat(reads: SessionReads, warmup: nat, count: nat)
    ensures
        spec_burst(Ok(reads), warmup, count) == match first_failure(reads, warmup + count) {
            Some(e) => Err(e),
            None => Ok(Seq::new(count, |i: int| reads((i + warmup) as nat)->Ok_0)),
        },
{
    if first_failure(reads, warmup) is Some {
        lemma_first_failure_stable(reads, warmup, warmup + count);
    } else {
        lemma_first_failure_after(reads, warmup, count);
        let rest = reads_after(reads, warmup);
        assert(Seq::new(count, |i: int| rest(i as nat)->Ok_0) =~= Seq::new(
            count,
            |i: int| reads((i + warmup) as nat)->Ok_0,
        ));
    }
}

/// Frames as plain values.
pub open spec fn frames_view(frames: Seq<Frame>) -> Seq<FrameView> {
    Seq::new(frames.len(), |i: int| frames[i]@)
}

/// Opens exclusive streaming sessions (see [`VideoSession`]).
pub trait VideoSource: Send + Sync {
    /// Whether opening a session may end in `outcome` (the reads of the new session, or the
    /// error); a camera may allow many. A source that does not describe its sessions leaves
    /// this unspecified: the default is closed, so nothing can be concluded from it.
    closed spec fn may_open(&self, outcome: Result<SessionReads, CaptureError>) -> bool {
        vstd::pervasive::arbitrary()
    }

    fn modality(&self) -> StreamModality;

    fn open_session(&self) -> (r: Result<Box<dyn VideoSession>, CaptureError>)
        ensures
            match r {
                Ok(s) => self.may_open(Ok(|i: nat| s.upcoming(i))),
                Err(e) => self.may_open(Err(e)),
            },
    ;
}

} // verus!
