//! The chunk-by-chunk transfer engine for one file: strictly increasing
//! chunk order, bounded retries on failure, and a token refresh on each
//! unauthorized response.

use vstd::prelude::*;
use crate::chunk::{
    chunk_end_spec, chunk_range, chunk_start_spec, lemma_chunk_bounds, slice_count,
    slice_count_spec, ChunkRange,
};
use crate::headers::content_range_spec;

verus! {

/// How many times one chunk may be attempted before the file is abandoned.
/// The wire protocol itself puts no bound on retrying a failing chunk; a
/// bound this size keeps transient failures survivable while ruling out a
/// livelock under persistent failure.
pub const MAX_CHUNK_ATTEMPTS: u64 = 8;

/// A chunk transfer failed `MAX_CHUNK_ATTEMPTS` times in a row; the file
/// is abandoned.
#[derive(Clone, Copy, PartialEq, Eq, Structural, Debug)]
pub enum ChunkError {
    TooManyAttempts,
}

/// Where one file's transfer stands.
#[derive(Clone, Copy, PartialEq, Eq, Structural, Debug)]
pub enum JobPhase {
    /// Chunks are still being sent.
    Transferring,
    /// Every chunk was accepted; the file is assembled server-side.
    Completed,
    /// The file was abandoned after too many failures on one chunk.
    Aborted,
}

/// One file's upload task: its size, the fixed slice count, the chunk the
/// transfer currently stands at, and how often that chunk has failed.
pub struct TransferJob {
    pub file_size: u64,
    pub slice_count: u64,
    pub index: u64,
    pub attempts: u64,
    pub phase: JobPhase,
}

/// Statuses that accept a chunk: `201`/`202` for an intermediate chunk,
/// `200` for the final one.
pub open spec fn accepted_status(s: u16) -> bool {
    s == 200 || s == 201 || s == 202
}

/// The outcome of one chunk PUT as the transport reports it.
#[derive(Clone, Copy, PartialEq, Eq, Structural, Debug)]
pub enum ChunkOutcome {
    /// The provider answered with this HTTP status.
    Status(u16),
    /// The request never completed (connection or protocol failure).
    TransportFailure,
}

/// What the caller must do after one chunk PUT.
#[derive(Clone, Copy, PartialEq, Eq, Structural, Debug)]
pub enum ChunkStep {
    /// The chunk was accepted: send the next one.
    SendNext,
    /// The chunk failed: send the same chunk again.
    Retry,
    /// The chunk was rejected as unauthorized: refresh the token exactly
    /// once, then send the same chunk again.
    RefreshAndRetry,
    /// The final chunk was accepted: the file is complete.
    Done,
    /// Too many failures on this chunk: abandon the file.
    Abort(ChunkError),
}

impl TransferJob {
    /// The job's fields agree with each other: the slice count is the one
    /// the file size dictates, the index never passes the slice count and
    /// reaches it exactly when the transfer completed, and the per-chunk
    /// attempt counter stays under its cap.
    pub open spec fn wf(self) -> bool {
        &&& self.slice_count == slice_count_spec(self.file_size)
        &&& self.index <= self.slice_count
        &&& (self.phase is Transferring ==> self.index < self.slice_count)
        &&& (self.phase is Completed ==> self.index == self.slice_count)
        &&& self.attempts < MAX_CHUNK_ATTEMPTS
    }

    /// Starts the transfer of a file of `file_size` bytes at chunk `0`.
    /// An empty file has no chunks: the chunk loop is skipped and the job
    /// is completed immediately.
    pub fn new(file_size: u64) -> (j: TransferJob)
        ensures
            j.wf(),
            j.file_size == file_size,
            j.slice_count == slice_count_spec(file_size),
            j.index == 0,
            j.attempts == 0,
            file_size == 0 ==> j.phase is Completed,
            file_size > 0 ==> j.phase is Transferring,
    {
        proof { crate::chunk::lemma_slice_count_basics(file_size); }
        let count = slice_count(file_size);
        let phase = if count == 0 { JobPhase::Completed } else { JobPhase::Transferring };
        TransferJob { file_size, slice_count: count, index: 0, attempts: 0, phase }
    }

    /// The byte range the transfer currently stands at: the next chunk to
    /// send (or send again).
    pub fn current_range(&self) -> (c: ChunkRange)
        requires
            self.wf(),
            self.phase is Transferring,
        ensures
            c.wf(),
            c.index == self.index,
            c.total == self.file_size,
            c.start == chunk_start_spec(self.index as int),
            c.end == chunk_end_spec(self.index as int, self.file_size),
    {
        chunk_range(self.index, self.file_size)
    }

    /// Drives the transfer one step on the outcome of a chunk PUT.
    ///
    /// An accepted status (`200`/`201`/`202`) advances the chunk index by
    /// exactly one and completes the job on the last chunk. Any other
    /// outcome leaves the index unchanged, so the chunk is sent again with
    /// the identical range; an unauthorized status asks for exactly one
    /// token refresh first. Each failure on one chunk counts against
    /// `MAX_CHUNK_ATTEMPTS`; at the cap the file is abandoned.
    pub fn on_chunk_outcome(&mut self, outcome: ChunkOutcome) -> (step: ChunkStep)
        requires
            old(self).wf(),
            old(self).phase is Transferring,
        ensures
            final(self).wf(),
            final(self).file_size == old(self).file_size,
            final(self).slice_count == old(self).slice_count,
            (outcome matches ChunkOutcome::Status(s) && accepted_status(s)) ==> {
                &&& final(self).index == old(self).index + 1
                &&& final(self).attempts == 0
                &&& (final(self).index < final(self).slice_count
                    ==> final(self).phase is Transferring && step == ChunkStep::SendNext)
                &&& (final(self).index == final(self).slice_count
                    ==> final(self).phase is Completed && step == ChunkStep::Done)
            },
            !(outcome matches ChunkOutcome::Status(s) && accepted_status(s)) ==> {
                &&& final(self).index == old(self).index
                &&& (old(self).attempts + 1 < MAX_CHUNK_ATTEMPTS ==> {
                    &&& final(self).attempts == old(self).attempts + 1
                    &&& final(self).phase is Transferring
                    &&& (outcome == ChunkOutcome::Status(401u16)
                        ==> step == ChunkStep::RefreshAndRetry)
                    &&& (outcome != ChunkOutcome::Status(401u16)
                        ==> step == ChunkStep::Retry)
                })
                &&& (old(self).attempts + 1 >= MAX_CHUNK_ATTEMPTS ==> {
                    &&& final(self).attempts == old(self).attempts
                    &&& final(self).phase is Aborted
                    &&& step == ChunkStep::Abort(ChunkError::TooManyAttempts)
                })
            },
    {
        let accepted = match outcome {
            ChunkOutcome::Status(s) => s == 200 || s == 201 || s == 202,
            ChunkOutcome::TransportFailure => false,
        };
        if accepted {
            self.index = self.index + 1;
            self.attempts = 0;
            if self.index == self.slice_count {
                self.phase = JobPhase::Completed;
                ChunkStep::Done
            } else {
                ChunkStep::SendNext
            }
        } else {
            if self.attempts + 1 >= MAX_CHUNK_ATTEMPTS {
                self.phase = JobPhase::Aborted;
                ChunkStep::Abort(ChunkError::TooManyAttempts)
            } else {
                self.attempts = self.attempts + 1;
                let unauthorized = match outcome {
                    ChunkOutcome::Status(s) => s == 401,
                    ChunkOutcome::TransportFailure => false,
                };
                if unauthorized {
                    ChunkStep::RefreshAndRetry
                } else {
                    ChunkStep::Retry
                }
            }
        }
    }
}

/// A chunk sent again after a failure is identical to the one sent before:
/// while the index stands still, the byte range — and with it the
/// Content-Range header and the byte length — is the same on every attempt,
/// because both are functions of the chunk index and the file size alone.
pub proof fn lemma_resend_identical(before: TransferJob, after: TransferJob)
    requires
        before.wf(),
        after.wf(),
        before.phase is Transferring,
        after.phase is Transferring,
        after.index == before.index,
        after.file_size == before.file_size,
    ensures
        chunk_start_spec(after.index as int) == chunk_start_spec(before.index as int),
        chunk_end_spec(after.index as int, after.file_size)
            == chunk_end_spec(before.index as int, before.file_size),
        content_range_spec(
            chunk_start_spec(after.index as int),
            chunk_end_spec(after.index as int, after.file_size),
            after.file_size as int,
        ) == content_range_spec(
            chunk_start_spec(before.index as int),
            chunk_end_spec(before.index as int, before.file_size),
            before.file_size as int,
        ),
{
    lemma_chunk_bounds(before.index as int, before.file_size);
}

} // verus!
