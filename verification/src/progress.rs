//! Progress accounting for a single streamed download.
//!
//! The caller owns the network stream and the destination file; after
//! persisting each chunk it feeds the chunk's length to a `ProgressTracker`
//! and forwards the resulting event to its observer.  Because the event is
//! built only from lengths already written, an event never reports more
//! bytes than are on disk.

use vstd::prelude::*;

verus! {

/// The smaller of two integers.
pub open spec fn min_int(a: int, b: int) -> int {
    if a <= b {
        a
    } else {
        b
    }
}

/// The sum of a sequence of integers.
pub open spec fn sum_of(lens: Seq<int>) -> int
    decreases lens.len(),
{
    if lens.len() == 0 {
        0
    } else {
        sum_of(lens.drop_last()) + lens.last()
    }
}

/// A sum of non-negative integers is non-negative.
pub proof fn lemma_sum_nonneg(lens: Seq<int>)
    requires
        forall|i: int| 0 <= i < lens.len() ==> lens[i] >= 0,
    ensures
        sum_of(lens) >= 0,
    decreases lens.len(),
{
    if lens.len() > 0 {
        lemma_sum_nonneg(lens.drop_last());
    }
}

/// Decides whether a streamed download may begin: the server must announce
/// a content length, since without one the progress denominator cannot be
/// computed; its absence is a network error.
pub fn stream_total(content_length: Option<u64>) -> (r: Result<u64, crate::SyncError>)
    ensures
        content_length matches Some(t) ==> r == Ok::<u64, crate::SyncError>(t),
        content_length is None ==> r == Err::<u64, crate::SyncError>(crate::SyncError::NetworkError),
{
    match content_length {
        Some(t) => Ok(t),
        None => Err(crate::SyncError::NetworkError),
    }
}

/// One progress notification: bytes persisted so far and the total the
/// server announced for the stream.
#[derive(Clone, Copy, Debug, PartialEq, Eq, Structural)]
pub struct ProgressEvent {
    pub downloaded: u64,
    pub total: u64,
}

/// Byte accounting for one streamed download with a known content length.
///
/// `downloaded` never exceeds `total` and never decreases; once the chunk
/// lengths seen sum to at least `total`, `downloaded` equals `total`.
pub struct ProgressTracker {
    downloaded: u64,
    total: u64,
    history: Ghost<Seq<int>>,
}

impl ProgressTracker {
    /// The lengths of the chunks recorded so far.
    pub closed spec fn chunks(&self) -> Seq<int> {
        self.history@
    }

    /// The announced total byte count of the stream.
    pub closed spec fn total_bytes(&self) -> u64 {
        self.total
    }

    /// Bytes accounted as downloaded so far.
    pub closed spec fn progress(&self) -> u64 {
        self.downloaded
    }

    /// Internal consistency: progress is the chunk-length sum, clamped to
    /// the announced total.
    pub closed spec fn wf(&self) -> bool {
        &&& forall|i: int| 0 <= i < self.history@.len() ==> self.history@[i] >= 0
        &&& self.downloaded as int == min_int(sum_of(self.history@), self.total as int)
    }

    /// Starts accounting for a stream whose announced length is `total`.
    pub fn new(total: u64) -> (r: Self)
        ensures
            r.wf(),
            r.total_bytes() == total,
            r.progress() == 0,
            r.chunks() == Seq::<int>::empty(),
    {
        ProgressTracker { downloaded: 0, total, history: Ghost(Seq::empty()) }
    }

    /// Records one persisted chunk of `len` bytes.
    ///
    /// Progress grows by the chunk length, clamped to the announced total,
    /// and never decreases; the total itself is fixed for the stream's
    /// lifetime.
    pub fn on_chunk(&mut self, len: u64)
        requires
            old(self).wf(),
        ensures
            final(self).wf(),
            final(self).total_bytes() == old(self).total_bytes(),
            final(self).chunks() == old(self).chunks().push(len as int),
            final(self).progress() as int == min_int(
                old(self).progress() as int + len as int,
                old(self).total_bytes() as int,
            ),
            final(self).progress() >= old(self).progress(),
    {
        proof {
            lemma_sum_nonneg(self.history@);
            assert(self.history@.push(len as int).drop_last() =~= self.history@);
        }
        let remaining = self.total - self.downloaded;
        if len >= remaining {
            self.downloaded = self.total;
        } else {
            self.downloaded = self.downloaded + len;
        }
        self.history = Ghost(self.history@.push(len as int));
    }

    /// The event to hand the observer after the chunk that was just
    /// persisted.
    pub fn event(&self) -> (r: ProgressEvent)
        ensures
            r.downloaded == self.progress(),
            r.total == self.total_bytes(),
    {
        ProgressEvent { downloaded: self.downloaded, total: self.total }
    }

    /// Whether the announced total has been reached.
    pub fn is_complete(&self) -> (r: bool)
        ensures
            r == (self.progress() == self.total_bytes()),
    {
        self.downloaded == self.total
    }
}

/// Once the recorded chunk lengths sum to at least the announced total —
/// in particular when the full body has been persisted — the tracker
/// reports exactly `total` downloaded bytes, so the final event of a
/// completed stream carries `downloaded == total`.
pub proof fn lemma_final_event_complete(t: &ProgressTracker)
    requires
        t.wf(),
        sum_of(t.chunks()) >= t.total_bytes(),
    ensures
        t.progress() == t.total_bytes(),
{
}

/// Progress is monotone in the chunk history: recording one more chunk
/// never lowers the accounted byte count, so the events of one stream are
/// non-decreasing in `downloaded`.
pub proof fn lemma_progress_monotone(lens: Seq<int>, len: int, total: int)
    requires
        len >= 0,
    ensures
        min_int(sum_of(lens.push(len)), total) >= min_int(sum_of(lens), total),
{
    assert(lens.push(len).drop_last() =~= lens);
}

} // verus!
