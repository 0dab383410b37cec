//! Per-file transfer state machine: resume detection, range requests,
//! streaming, retry with backoff, and checksum verification.
//!
//! The machine holds every decision a single job makes; the I/O layer
//! reports what happened (a response arrived, a chunk was written, a
//! pause elapsed) as a [`TransferEvent`] and performs the returned
//! [`TransferAction`]. All retries and their pauses follow the job's
//! [`RetryConfig`].

use vstd::prelude::*;

use crate::config::{backoff_delay, spec_backoff_delay, RetryConfig};
use crate::error::DownloadError;

verus! {

/// Where a transfer stands.
#[derive(Debug, Clone, Copy, PartialEq, Eq, Structural)]
pub enum TransferPhase {
    /// A request is about to be issued from the current resume offset.
    Requesting,
    /// Waiting out a backoff pause before the next request.
    Backoff,
    /// A response was accepted; body chunks are being written.
    Streaming,
    /// The body is complete; the checksum is being computed.
    Verifying,
    /// The transfer succeeded.
    Done,
    /// The transfer ended in a terminal error.
    Failed,
}

/// What the I/O layer observed.
pub enum TransferEvent {
    /// A response arrived: its status code, status text, and the
    /// `Content-Length` it reported, if any.
    Response { status: u16, status_text: String, content_length: Option<u64> },
    /// The request could not be sent at all.
    SendFailed { message: String },
    /// One body chunk of `len` bytes was durably written.
    ChunkWritten { len: u64 },
    /// The destination file could not be created or written.
    WriteFailed { message: String },
    /// The body stream broke before it ended.
    StreamFailed { message: String },
    /// The body stream ended cleanly.
    StreamEnded,
    /// The backoff pause has elapsed.
    BackoffElapsed,
    /// The downloaded content hashes to `actual`.
    ChecksumComputed { actual: String },
}

/// What the I/O layer must do next.
pub enum TransferAction {
    /// Send a GET, with a `bytes={range_start}-` suffix range when one
    /// is given.
    IssueRequest { range_start: Option<u64> },
    /// Read the next body chunk and write it to the destination.
    ReadChunk,
    /// Pause for this many seconds, then report `BackoffElapsed`.
    Sleep { seconds: u64 },
    /// Hash the downloaded content and report `ChecksumComputed`.
    ComputeChecksum,
    /// The transfer succeeded; release its resources.
    Finish,
    /// The transfer failed terminally; release its resources.
    Abort,
}

/// The per-job transfer state.
pub struct TransferMachine {
    /// Index of the job this transfer belongs to.
    pub file_index: u32,
    /// Retry policy for this transfer.
    pub retry: RetryConfig,
    /// Digest registered for this URL, if any.
    pub expected_checksum: Option<String>,
    /// Where the transfer stands.
    pub phase: TransferPhase,
    /// How many retries have been made so far.
    pub retries_done: u32,
    /// Bytes already on disk when the transfer began.
    pub resume_offset: u64,
    /// Bytes durably on disk now.
    pub downloaded: u64,
    /// Final file length that the server's reported content length
    /// implies, when it reported one.
    pub expected_total: Option<u64>,
    /// The terminal error, exactly when the phase is `Failed`.
    pub error: Option<DownloadError>,
}

impl TransferMachine {
    /// Internal consistency: the retry budget is respected, the file
    /// never shrinks below its resume offset, an error is recorded
    /// exactly in the `Failed` phase, and verification only runs when
    /// a checksum is registered.
    pub open spec fn wf(self) -> bool {
        &&& self.retries_done <= self.retry.max_retries
        &&& self.resume_offset <= self.downloaded
        &&& (self.phase is Failed <==> self.error is Some)
        &&& (self.phase is Verifying ==> self.expected_checksum is Some)
    }

    /// Which events make sense in which phase.
    pub open spec fn accepts(self, event: TransferEvent) -> bool {
        match event {
            TransferEvent::Response { .. } => self.phase is Requesting,
            TransferEvent::SendFailed { .. } => self.phase is Requesting,
            TransferEvent::ChunkWritten { .. } => self.phase is Streaming,
            TransferEvent::WriteFailed { .. } => self.phase is Streaming,
            TransferEvent::StreamFailed { .. } => self.phase is Streaming,
            TransferEvent::StreamEnded => self.phase is Streaming,
            TransferEvent::BackoffElapsed => self.phase is Backoff,
            TransferEvent::ChecksumComputed { .. } => self.phase is Verifying,
        }
    }

    /// The resume offset the next request carries: the current file
    /// length, or nothing when the file is empty so far.
    pub open spec fn spec_range_start(self) -> Option<u64> {
        if self.downloaded > 0 {
            Some(self.downloaded)
        } else {
            None
        }
    }
}

/// The state a fresh transfer starts in: no retries used yet, the
/// resume offset equal to whatever is already on disk, and the first
/// request about to be issued.
pub open spec fn spec_init(
    file_index: u32,
    existing_len: u64,
    retry: RetryConfig,
    expected_checksum: Option<String>,
) -> TransferMachine {
    TransferMachine {
        file_index,
        retry,
        expected_checksum,
        phase: TransferPhase::Requesting,
        retries_done: 0,
        resume_offset: existing_len,
        downloaded: existing_len,
        expected_total: None,
        error: None,
    }
}

/// React to a retryable failure: enter backoff while the retry budget
/// lasts, otherwise record `err` and fail terminally.
pub open spec fn spec_fail_or_retry(m: TransferMachine, err: DownloadError) -> (TransferMachine,
    TransferAction) {
    if m.retries_done < m.retry.max_retries {
        (
            TransferMachine {
                phase: TransferPhase::Backoff,
                retries_done: (m.retries_done + 1) as u32,
                ..m
            },
            TransferAction::Sleep {
                seconds: spec_backoff_delay(m.retry, (m.retries_done + 1) as nat) as u64,
            },
        )
    } else {
        (
            TransferMachine { phase: TransferPhase::Failed, error: Some(err), ..m },
            TransferAction::Abort,
        )
    }
}

/// The machine's whole transition relation: the state after an event,
/// and the action the I/O layer must take.
pub open spec fn spec_step(m: TransferMachine, event: TransferEvent) -> (TransferMachine,
    TransferAction) {
    match event {
        TransferEvent::Response { status, status_text, content_length } => {
            if 200 <= status < 300 {
                (
                    TransferMachine {
                        phase: TransferPhase::Streaming,
                        expected_total: match content_length {
                            Some(remaining) => Some(m.downloaded.saturating_add(remaining)),
                            None => None,
                        },
                        ..m
                    },
                    TransferAction::ReadChunk,
                )
            } else {
                spec_fail_or_retry(
                    m,
                    DownloadError::HttpError(m.file_index, status, status_text),
                )
            }
        },
        TransferEvent::SendFailed { message } => spec_fail_or_retry(
            m,
            DownloadError::NetworkError(m.file_index, message),
        ),
        TransferEvent::ChunkWritten { len } => (
            TransferMachine { downloaded: m.downloaded.saturating_add(len), ..m },
            TransferAction::ReadChunk,
        ),
        TransferEvent::WriteFailed { message } => (
            TransferMachine { phase: TransferPhase::Failed, error: Some(DownloadError::Io(message)), ..m },
            TransferAction::Abort,
        ),
        TransferEvent::StreamFailed { message } => spec_fail_or_retry(
            m,
            DownloadError::NetworkError(m.file_index, message),
        ),
        TransferEvent::StreamEnded => {
            if m.expected_checksum is Some {
                (TransferMachine { phase: TransferPhase::Verifying, ..m }, TransferAction::ComputeChecksum)
            } else {
                (TransferMachine { phase: TransferPhase::Done, ..m }, TransferAction::Finish)
            }
        },
        TransferEvent::BackoffElapsed => (
            TransferMachine { phase: TransferPhase::Requesting, ..m },
            TransferAction::IssueRequest { range_start: m.spec_range_start() },
        ),
        TransferEvent::ChecksumComputed { actual } => {
            match m.expected_checksum {
                Some(expected) => {
                    if expected@ == actual@ {
                        (TransferMachine { phase: TransferPhase::Done, ..m }, TransferAction::Finish)
                    } else {
                        (
                            TransferMachine {
                                phase: TransferPhase::Failed,
                                error: Some(
                                    DownloadError::ChecksumMismatch(m.file_index, expected, actual),
                                ),
                                ..m
                            },
                            TransferAction::Abort,
                        )
                    }
                },
                None => (TransferMachine { phase: TransferPhase::Done, ..m }, TransferAction::Finish),
            }
        },
    }
}

impl TransferMachine {
    /// Begin a transfer for job `file_index`, resuming after
    /// `existing_len` bytes already on disk.
    pub fn new(
        file_index: u32,
        existing_len: u64,
        retry: RetryConfig,
        expected_checksum: Option<String>,
    ) -> (m: TransferMachine)
        ensures
            m == spec_init(file_index, existing_len, retry, expected_checksum),
            m.wf(),
    {
        TransferMachine {
            file_index,
            retry,
            expected_checksum,
            phase: TransferPhase::Requesting,
            retries_done: 0,
            resume_offset: existing_len,
            downloaded: existing_len,
            expected_total: None,
            error: None,
        }
    }

    /// The resume offset the next request must carry, so that only the
    /// bytes past the current file length are fetched.
    pub fn request_range_start(&self) -> (r: Option<u64>)
        requires
            self.phase is Requesting,
        ensures
            r == self.spec_range_start(),
    {
        if self.downloaded > 0 {
            Some(self.downloaded)
        } else {
            None
        }
    }

    /// Advance the machine by one observed event and say what to do
    /// next. The transition taken is exactly [`spec_step`].
    pub fn step(&mut self, event: TransferEvent) -> (action: TransferAction)
        requires
            old(self).wf(),
            old(self).accepts(event),
        ensures
            (*final(self), action) == spec_step(*old(self), event),
            final(self).wf(),
    {
        match event {
            TransferEvent::Response { status, status_text, content_length } => {
                if 200 <= status && status < 300 {
                    self.phase = TransferPhase::Streaming;
                    self.expected_total = match content_length {
                        Some(remaining) => Some(self.downloaded.saturating_add(remaining)),
                        None => None,
                    };
                    TransferAction::ReadChunk
                } else {
                    self.fail_or_retry(
                        DownloadError::HttpError(self.file_index, status, status_text),
                    )
                }
            },
            TransferEvent::SendFailed { message } => {
                let err = DownloadError::NetworkError(self.file_index, message);
                self.fail_or_retry(err)
            },
            TransferEvent::ChunkWritten { len } => {
                self.downloaded = self.downloaded.saturating_add(len);
                TransferAction::ReadChunk
            },
            TransferEvent::WriteFailed { message } => {
                self.phase = TransferPhase::Failed;
                self.error = Some(DownloadError::Io(message));
                TransferAction::Abort
            },
            TransferEvent::StreamFailed { message } => {
                let err = DownloadError::NetworkError(self.file_index, message);
                self.fail_or_retry(err)
            },
            TransferEvent::StreamEnded => {
                if self.expected_checksum.is_some() {
                    self.phase = TransferPhase::Verifying;
                    TransferAction::ComputeChecksum
                } else {
                    self.phase = TransferPhase::Done;
                    TransferAction::Finish
                }
            },
            TransferEvent::BackoffElapsed => {
                self.phase = TransferPhase::Requesting;
                TransferAction::IssueRequest { range_start: self.request_range_start() }
            },
            TransferEvent::ChecksumComputed { actual } => {
                match &self.expected_checksum {
                    Some(expected) => {
                        if expected.eq(&actual) {
                            self.phase = TransferPhase::Done;
                            TransferAction::Finish
                        } else {
                            let expected = expected.clone();
                            self.phase = TransferPhase::Failed;
                            self.error = Some(
                                DownloadError::ChecksumMismatch(self.file_index, expected, actual),
                            );
                            TransferAction::Abort
                        }
                    },
                    None => {
                        self.phase = TransferPhase::Done;
                        TransferAction::Finish
                    },
                }
            },
        }
    }

    /// React to a retryable failure: sleep and retry while the budget
    /// lasts, otherwise record `err` and fail.
    fn fail_or_retry(&mut self, err: DownloadError) -> (action: TransferAction)
        requires
            old(self).wf(),
            old(self).phase is Requesting || old(self).phase is Streaming,
        ensures
            (*final(self), action) == spec_fail_or_retry(*old(self), err),
            final(self).wf(),
    {
        if self.retries_done < self.retry.max_retries {
            self.retries_done = self.retries_done + 1;
            self.phase = TransferPhase::Backoff;
            let delay = backoff_delay(&self.retry, self.retries_done);
            proof {
                assert(delay == spec_backoff_delay(self.retry, self.retries_done as nat) as u64);
            }
            TransferAction::Sleep { seconds: delay }
        } else {
            self.phase = TransferPhase::Failed;
            self.error = Some(err);
            TransferAction::Abort
        }
    }

    /// What this finished transfer amounts to: the bytes it wrote, or
    /// its terminal error.
    pub fn into_outcome(self) -> (o: TransferOutcome)
        requires
            self.wf(),
            self.phase is Done || self.phase is Failed,
        ensures
            self.phase is Done ==> o == (TransferOutcome::Success {
                bytes_written: (self.downloaded - self.resume_offset) as u64,
            }),
            self.phase is Failed ==> (o matches TransferOutcome::Failed { error } && Some(error)
                == self.error),
    {
        match self {
            TransferMachine { phase: TransferPhase::Failed, error: Some(error), .. } => {
                TransferOutcome::Failed { error }
            },
            TransferMachine { downloaded, resume_offset, .. } => {
                TransferOutcome::Success { bytes_written: downloaded - resume_offset }
            },
        }
    }
}

/// What one finished job reports to the orchestrator.
pub enum TransferOutcome {
    /// The transfer completed; this many new bytes were written.
    Success { bytes_written: u64 },
    /// The transfer ended with this terminal error.
    Failed { error: DownloadError },
}

/// One failed request followed by the end of its backoff pause: the
/// machine takes the failing response, sleeps, and stands ready to
/// request again.
pub open spec fn spec_failure_cycle(
    m: TransferMachine,
    status: u16,
    status_text: String,
) -> TransferMachine {
    spec_step(
        spec_step(m, TransferEvent::Response { status, status_text, content_length: None }).0,
        TransferEvent::BackoffElapsed,
    ).0
}

/// `k` failed requests in a row, each followed by its backoff pause.
pub open spec fn spec_failure_cycles(
    m: TransferMachine,
    status: u16,
    status_text: String,
    k: nat,
) -> TransferMachine
    decreases k,
{
    if k == 0 {
        m
    } else {
        spec_failure_cycle(
            spec_failure_cycles(m, status, status_text, (k - 1) as nat),
            status,
            status_text,
        )
    }
}

/// Each failed request within the retry budget records exactly one
/// retry and returns the machine to `Requesting`; nothing else about
/// the transfer changes.
pub proof fn lemma_failure_cycles_count(
    m: TransferMachine,
    status: u16,
    status_text: String,
    k: nat,
)
    requires
        m.wf(),
        m.phase is Requesting,
        !(200 <= status < 300),
        m.retries_done + k <= m.retry.max_retries,
    ensures
        ({
            let r = spec_failure_cycles(m, status, status_text, k);
            &&& r.wf()
            &&& r.phase is Requesting
            &&& r.retries_done == m.retries_done + k
            &&& r.retry == m.retry
            &&& r.file_index == m.file_index
            &&& r.downloaded == m.downloaded
            &&& r.resume_offset == m.resume_offset
            &&& r.expected_checksum == m.expected_checksum
            &&& r.error is None
        }),
    decreases k,
{
    if k > 0 {
        lemma_failure_cycles_count(m, status, status_text, (k - 1) as nat);
    }
}

/// Law: against a source that fails every attempt, a transfer makes
/// exactly `max_retries` retries and then terminates with an
/// `HttpError` carrying the failing status; no further attempt
/// follows, and no silent success is possible.
pub proof fn lemma_retry_exhaustion(
    file_index: u32,
    existing_len: u64,
    retry: RetryConfig,
    expected_checksum: Option<String>,
    status: u16,
    status_text: String,
)
    requires
        !(200 <= status < 300),
    ensures
        ({
            let start = spec_init(file_index, existing_len, retry, expected_checksum);
            let worn = spec_failure_cycles(start, status, status_text, retry.max_retries as nat);
            let last = spec_step(
                worn,
                TransferEvent::Response { status, status_text, content_length: None },
            );
            &&& worn.retries_done == retry.max_retries
            &&& last.0.phase is Failed
            &&& last.0.retries_done == retry.max_retries
            &&& last.0.error == Some(DownloadError::HttpError(file_index, status, status_text))
            &&& last.1 is Abort
        }),
{
    let start = spec_init(file_index, existing_len, retry, expected_checksum);
    lemma_failure_cycles_count(start, status, status_text, retry.max_retries as nat);
}

/// Law: a mismatched checksum ends the job at once with a
/// `ChecksumMismatch` error; no retry is attempted, however much of
/// the retry budget remains.
pub proof fn lemma_checksum_mismatch_terminal(m: TransferMachine, actual: String)
    requires
        m.wf(),
        m.phase is Verifying,
        m.expected_checksum matches Some(e) && e@ != actual@,
    ensures
        spec_step(m, TransferEvent::ChecksumComputed { actual }).0.phase is Failed,
        spec_step(m, TransferEvent::ChecksumComputed { actual }).0.retries_done
            == m.retries_done,
        spec_step(m, TransferEvent::ChecksumComputed { actual }).1 is Abort,
        m.expected_checksum matches Some(e) ==> spec_step(
            m,
            TransferEvent::ChecksumComputed { actual },
        ).0.error == Some(DownloadError::ChecksumMismatch(m.file_index, e, actual)),
{
}

/// Law (resume, request half): a transfer that begins with `L > 0`
/// bytes already on disk asks the server for a range starting at byte
/// `L`, so only the remaining bytes are fetched.
pub proof fn lemma_resume_requests_remaining(
    file_index: u32,
    existing_len: u64,
    retry: RetryConfig,
    expected_checksum: Option<String>,
)
    requires
        existing_len > 0,
    ensures
        spec_init(file_index, existing_len, retry, expected_checksum).spec_range_start() == Some(
            existing_len,
        ),
{
}

/// The machine after a list of body chunks has been written, each
/// reported in order.
pub open spec fn spec_stream_chunks(m: TransferMachine, lens: Seq<u64>) -> TransferMachine
    decreases lens.len(),
{
    if lens.len() == 0 {
        m
    } else {
        spec_stream_chunks(
            spec_step(m, TransferEvent::ChunkWritten { len: lens.first() }).0,
            lens.drop_first(),
        )
    }
}

/// The total length of a list of chunks.
pub open spec fn spec_chunk_sum(lens: Seq<u64>) -> int
    decreases lens.len(),
{
    if lens.len() == 0 {
        0
    } else {
        lens.first() + spec_chunk_sum(lens.drop_first())
    }
}

/// Law (streaming): writing chunks only ever adds their lengths to
/// the file, so a transfer that streams exactly the remainder the
/// server reported ends with `downloaded` equal to the expected
/// total. Nothing else about the transfer changes while chunks
/// arrive.
pub proof fn lemma_streaming_accumulates(m: TransferMachine, lens: Seq<u64>)
    requires
        m.phase is Streaming,
        m.downloaded + spec_chunk_sum(lens) <= u64::MAX,
    ensures
        ({
            let r = spec_stream_chunks(m, lens);
            &&& r.downloaded == m.downloaded + spec_chunk_sum(lens)
            &&& r.phase is Streaming
            &&& r == (TransferMachine { downloaded: r.downloaded, ..m })
        }),
    decreases lens.len(),
{
    if lens.len() > 0 {
        let next = spec_step(m, TransferEvent::ChunkWritten { len: lens.first() }).0;
        assert(spec_chunk_sum(lens.drop_first()) >= 0) by {
            lemma_chunk_sum_nonneg(lens.drop_first());
        }
        lemma_streaming_accumulates(next, lens.drop_first());
    }
}

/// A chunk list's total length is never negative.
pub proof fn lemma_chunk_sum_nonneg(lens: Seq<u64>)
    ensures
        spec_chunk_sum(lens) >= 0,
    decreases lens.len(),
{
    if lens.len() > 0 {
        lemma_chunk_sum_nonneg(lens.drop_first());
    }
}

/// Law (resume, file half): appending the fetched remainder to the
/// existing prefix gives a file of exactly the total length whose
/// first `L` bytes are unchanged.
pub proof fn lemma_resume_round_trip(existing: Seq<u8>, fetched: Seq<u8>, total: nat)
    requires
        existing.len() + fetched.len() == total,
    ensures
        (existing + fetched).len() == total,
        (existing + fetched).subrange(0, existing.len() as int) == existing,
        forall|i: int| 0 <= i < existing.len() ==> (existing + fetched)[i] == existing[i],
{
    assert((existing + fetched).subrange(0, existing.len() as int) =~= existing);
}

} // verus!
