//! The transfer controller: one upload or download as a cancellable,
//! progress-emitting chunked copy.
//!
//! The controller is a state machine driven by the copy loop that owns the
//! I/O. Before each chunk the loop polls the cancel signal through
//! [`TransferProgress::poll_cancel`]; each chunk read is recorded through
//! [`TransferProgress::record_chunk`], which decides under the throttle
//! whether a progress event is due; end of stream finishes the transfer
//! through [`TransferProgress::complete`]. Progress events for one transfer
//! carry monotonically non-decreasing byte counts and the terminal
//! `completed`/`cancelled` event is the last one: a terminal transfer emits
//! nothing further.

use vstd::prelude::*;

verus! {

/// The number of bytes moved per iteration of the copy loop.
pub const CHUNK_SIZE: usize = 8192;

/// The permission mode a newly created remote directory is given.
pub const DIR_MODE: u32 = 0o755;

/// Emission throttle: at most one event per elapsed window of this many
/// milliseconds, unless a megabyte boundary forces one out earlier.
pub const EMIT_INTERVAL_MS: u64 = 100;

/// The boundary whose crossing forces a progress event out.
pub const MIB: u64 = 1048576;

/// Where one transfer stands.
#[derive(Debug, Clone, Copy, PartialEq, Eq, Structural)]
pub enum TransferStatus {
    InProgress,
    Completed,
    Cancelled,
}

/// One progress event, as handed to the observer of a transfer.
#[derive(Debug, Clone)]
pub struct ProgressEvent {
    pub transfer_id: String,
    pub bytes_copied: u64,
    pub total_size: u64,
    /// Integer percentage, 0 when the total is unknown.
    pub progress: u32,
    pub cancelled: bool,
    pub completed: bool,
}

/// The mathematical shape of a progress event.
pub ghost struct ProgressEventView {
    pub transfer_id: Seq<char>,
    pub bytes_copied: u64,
    pub total_size: u64,
    pub progress: u32,
    pub cancelled: bool,
    pub completed: bool,
}

impl View for ProgressEvent {
    type V = ProgressEventView;

    open spec fn view(&self) -> ProgressEventView {
        ProgressEventView {
            transfer_id: self.transfer_id@,
            bytes_copied: self.bytes_copied,
            total_size: self.total_size,
            progress: self.progress,
            cancelled: self.cancelled,
            completed: self.completed,
        }
    }
}

/// The state of one transfer, mutated only by its own copy loop.
#[derive(Debug, Clone)]
pub struct TransferProgress {
    pub id: String,
    pub filename: String,
    /// Total size in bytes; 0 when unknown.
    pub total_size: u64,
    /// Bytes moved so far.
    pub transferred: u64,
    pub status: TransferStatus,
}

/// The mathematical shape of a transfer state.
pub ghost struct TransferProgressView {
    pub id: Seq<char>,
    pub filename: Seq<char>,
    pub total_size: u64,
    pub transferred: u64,
    pub status: TransferStatus,
}

impl View for TransferProgress {
    type V = TransferProgressView;

    open spec fn view(&self) -> TransferProgressView {
        TransferProgressView {
            id: self.id@,
            filename: self.filename@,
            total_size: self.total_size,
            transferred: self.transferred,
            status: self.status,
        }
    }
}

/// Integer percentage of `bytes` out of `total`, rounded toward zero,
/// clamped to 100, and 0 when the total is unknown.
pub open spec fn spec_percent(bytes: u64, total: u64) -> u32 {
    if total == 0 {
        0u32
    } else if bytes >= total {
        100u32
    } else {
        ((bytes as int * 100) / (total as int)) as u32
    }
}

/// Whether moving from `before` to `after` bytes crosses a megabyte
/// boundary.
pub open spec fn crossed_mib(before: u64, after: u64) -> bool {
    before / MIB < after / MIB
}

/// The throttle: an event is due when the elapsed time since the last one
/// reaches the emission interval, or when the transferred count crosses a
/// megabyte boundary — whichever triggers first.
pub open spec fn should_emit(elapsed_ms: u64, before: u64, after: u64) -> bool {
    elapsed_ms >= EMIT_INTERVAL_MS || crossed_mib(before, after)
}

/// The state after one chunk of `n` bytes: a terminal transfer is
/// unchanged, an in-flight one accumulates.
pub open spec fn spec_apply_chunk(t: TransferProgressView, n: u64) -> TransferProgressView {
    if t.status == TransferStatus::InProgress {
        TransferProgressView { transferred: (t.transferred + n) as u64, ..t }
    } else {
        t
    }
}

/// The state after a sequence of chunks.
pub open spec fn spec_run_chunks(t: TransferProgressView, chunks: Seq<u64>) -> TransferProgressView
    decreases chunks.len(),
{
    if chunks.len() == 0 {
        t
    } else {
        spec_apply_chunk(spec_run_chunks(t, chunks.drop_last()), chunks.last())
    }
}

/// The sum of a sequence of chunk sizes.
pub open spec fn sum_chunks(chunks: Seq<u64>) -> int
    decreases chunks.len(),
{
    if chunks.len() == 0 {
        0
    } else {
        sum_chunks(chunks.drop_last()) + chunks.last()
    }
}

/// The routine progress event for an in-flight state.
pub open spec fn spec_progress_event(t: TransferProgressView) -> ProgressEventView {
    ProgressEventView {
        transfer_id: t.id,
        bytes_copied: t.transferred,
        total_size: t.total_size,
        progress: spec_percent(t.transferred, t.total_size),
        cancelled: false,
        completed: false,
    }
}

/// The final event of a transfer that ran to the end of the stream.
pub open spec fn spec_completion_event(t: TransferProgressView) -> ProgressEventView {
    ProgressEventView {
        transfer_id: t.id,
        bytes_copied: t.transferred,
        total_size: t.total_size,
        progress: 100u32,
        cancelled: false,
        completed: true,
    }
}

/// The final event of a transfer that observed its cancel signal.
pub open spec fn spec_cancel_event(t: TransferProgressView) -> ProgressEventView {
    ProgressEventView {
        transfer_id: t.id,
        bytes_copied: t.transferred,
        total_size: t.total_size,
        progress: spec_percent(t.transferred, t.total_size),
        cancelled: true,
        completed: false,
    }
}

/// Integer percentage of `bytes` out of `total`.
pub fn progress_percent(bytes: u64, total: u64) -> (r: u32)
    ensures
        r == spec_percent(bytes, total),
        r <= 100,
{
    if total == 0 {
        0
    } else if bytes >= total {
        100
    } else {
        let p = ((bytes as u128) * 100) / (total as u128);
        proof {
            assert((bytes as int * 100) / (total as int) < 100) by (nonlinear_arith)
                requires
                    0 < total,
                    bytes < total,
            ;
        }
        p as u32
    }
}

impl TransferProgress {
    /// A fresh in-flight transfer with nothing moved yet.
    pub fn begin(id: String, filename: String, total_size: u64) -> (t: Self)
        ensures
            t@ == (TransferProgressView {
                id: id@,
                filename: filename@,
                total_size,
                transferred: 0,
                status: TransferStatus::InProgress,
            }),
    {
        TransferProgress { id, filename, total_size, transferred: 0, status: TransferStatus::InProgress }
    }

    /// Observes the cancel signal at a poll point. When the transfer is
    /// in flight and the signal is set, the transfer turns terminal and the
    /// final event, flagged `cancelled`, comes back; in every other case
    /// nothing changes and nothing is emitted.
    pub fn poll_cancel(&mut self, cancel_requested: bool) -> (evt: Option<ProgressEvent>)
        ensures
            (old(self)@.status == TransferStatus::InProgress && cancel_requested) ==> {
                &&& final(self)@ == (TransferProgressView {
                    status: TransferStatus::Cancelled,
                    ..old(self)@
                })
                &&& evt matches Some(e) && e@ == spec_cancel_event(old(self)@)
            },
            !(old(self)@.status == TransferStatus::InProgress && cancel_requested) ==> {
                &&& final(self)@ == old(self)@
                &&& evt is None
            },
    {
        if cancel_requested && self.status == TransferStatus::InProgress {
            self.status = TransferStatus::Cancelled;
            Some(ProgressEvent {
                transfer_id: self.id.clone(),
                bytes_copied: self.transferred,
                total_size: self.total_size,
                progress: progress_percent(self.transferred, self.total_size),
                cancelled: true,
                completed: false,
            })
        } else {
            None
        }
    }

    /// Records one chunk of `n` bytes read from the stream. A terminal
    /// transfer ignores it; an in-flight one accumulates the count and,
    /// exactly when the throttle says an event is due, hands the routine
    /// progress event back.
    pub fn record_chunk(&mut self, n: u64, elapsed_ms: u64) -> (evt: Option<ProgressEvent>)
        requires
            old(self)@.transferred + n <= u64::MAX,
        ensures
            final(self)@ == spec_apply_chunk(old(self)@, n),
            old(self)@.status != TransferStatus::InProgress ==> evt is None,
            old(self)@.status == TransferStatus::InProgress ==> {
                &&& (evt is Some <==> should_emit(
                    elapsed_ms,
                    old(self)@.transferred,
                    final(self)@.transferred,
                ))
                &&& (evt matches Some(e) ==> e@ == spec_progress_event(final(self)@))
            },
    {
        if self.status != TransferStatus::InProgress {
            return None;
        }
        let before = self.transferred;
        self.transferred = self.transferred + n;
        if elapsed_ms >= EMIT_INTERVAL_MS || before / MIB < self.transferred / MIB {
            Some(ProgressEvent {
                transfer_id: self.id.clone(),
                bytes_copied: self.transferred,
                total_size: self.total_size,
                progress: progress_percent(self.transferred, self.total_size),
                cancelled: false,
                completed: false,
            })
        } else {
            None
        }
    }

    /// Finishes a transfer whose stream reached its end: the state turns
    /// terminal and the final event, flagged `completed` with progress 100,
    /// comes back.
    pub fn complete(&mut self) -> (evt: ProgressEvent)
        requires
            old(self)@.status == TransferStatus::InProgress,
        ensures
            final(self)@ == (TransferProgressView { status: TransferStatus::Completed, ..old(self)@ }),
            evt@ == spec_completion_event(old(self)@),
    {
        self.status = TransferStatus::Completed;
        ProgressEvent {
            transfer_id: self.id.clone(),
            bytes_copied: self.transferred,
            total_size: self.total_size,
            progress: 100,
            cancelled: false,
            completed: true,
        }
    }
}

/// Chunk sizes are non-negative, so a sum of them is too.
pub proof fn lemma_sum_chunks_nonneg(chunks: Seq<u64>)
    ensures
        0 <= sum_chunks(chunks),
    decreases chunks.len(),
{
    if chunks.len() > 0 {
        lemma_sum_chunks_nonneg(chunks.drop_last());
    }
}

/// Law: an in-flight transfer accumulates exactly the bytes delivered — the
/// sum of all chunk sizes — and nothing else about it changes.
pub proof fn lemma_chunk_accounting(t: TransferProgressView, chunks: Seq<u64>)
    requires
        t.status == TransferStatus::InProgress,
        t.transferred + sum_chunks(chunks) <= u64::MAX,
    ensures
        spec_run_chunks(t, chunks) == (TransferProgressView {
            transferred: (t.transferred + sum_chunks(chunks)) as u64,
            ..t
        }),
    decreases chunks.len(),
{
    if chunks.len() == 0 {
        assert(spec_run_chunks(t, chunks) =~= (TransferProgressView {
            transferred: (t.transferred + sum_chunks(chunks)) as u64,
            ..t
        }));
    } else {
        lemma_sum_chunks_nonneg(chunks.drop_last());
        lemma_chunk_accounting(t, chunks.drop_last());
    }
}

/// Law: for a download of a remote file of `N == t.total_size` bytes whose
/// stream delivers chunks summing to `N`, the cumulative count carried by
/// the final `completed` event equals `N` — so the deltas between the byte
/// counts of successive events sum to `N` — and that event reports
/// progress 100.
pub proof fn lemma_download_accounting(t: TransferProgressView, chunks: Seq<u64>)
    requires
        t.status == TransferStatus::InProgress,
        t.transferred == 0,
        sum_chunks(chunks) == t.total_size,
    ensures
        spec_run_chunks(t, chunks).transferred == t.total_size,
        spec_completion_event(spec_run_chunks(t, chunks)).bytes_copied == t.total_size,
        spec_completion_event(spec_run_chunks(t, chunks)).progress == 100,
        spec_completion_event(spec_run_chunks(t, chunks)).completed,
        spec_completion_event(spec_run_chunks(t, chunks)).transfer_id == t.id,
{
    lemma_chunk_accounting(t, chunks);
}

/// Law: the terminal event of a transfer is the last one — once the status
/// is terminal, neither a further chunk nor a further cancel observation
/// changes the state or emits an event.
pub proof fn lemma_terminal_is_final(t: TransferProgressView, n: u64)
    requires
        t.status != TransferStatus::InProgress,
    ensures
        spec_apply_chunk(t, n) == t,
{
}

/// Law: cancelling an in-flight transfer whose stream has delivered at most
/// `t.total_size` bytes yields a final event flagged `cancelled` whose byte
/// count stays within the total size.
pub proof fn lemma_cancel_event_bounded(t: TransferProgressView, chunks: Seq<u64>)
    requires
        t.status == TransferStatus::InProgress,
        t.transferred == 0,
        sum_chunks(chunks) <= t.total_size,
    ensures
        spec_cancel_event(spec_run_chunks(t, chunks)).cancelled,
        !spec_cancel_event(spec_run_chunks(t, chunks)).completed,
        spec_cancel_event(spec_run_chunks(t, chunks)).bytes_copied <= t.total_size,
        spec_cancel_event(spec_run_chunks(t, chunks)).transfer_id == t.id,
{
    lemma_sum_chunks_nonneg(chunks);
    lemma_chunk_accounting(t, chunks);
}

/// Law: the byte counts a transfer reports never go backwards — recording a
/// chunk can only grow the transferred count.
pub proof fn lemma_progress_monotone(t: TransferProgressView, n: u64)
    requires
        t.transferred + n <= u64::MAX,
    ensures
        t.transferred <= spec_apply_chunk(t, n).transferred,
{
}

} // verus!
