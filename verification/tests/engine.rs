use onedrive_uploader::uploader::{
    ChunkError, ChunkOutcome, ChunkStep, JobPhase, TransferJob, MAX_CHUNK_ATTEMPTS,
};

const MIB5: u64 = 5 * 1024 * 1024;

#[test]
fn empty_file_completes_immediately() {
    let job = TransferJob::new(0);
    assert_eq!(job.slice_count, 0);
    assert_eq!(job.index, 0);
    assert_eq!(job.phase, JobPhase::Completed);
}

#[test]
fn single_chunk_file_completes_on_200() {
    let mut job = TransferJob::new(MIB5);
    assert_eq!(job.slice_count, 1);
    assert_eq!(job.phase, JobPhase::Transferring);
    let step = job.on_chunk_outcome(ChunkOutcome::Status(200));
    assert_eq!(step, ChunkStep::Done);
    assert_eq!(job.phase, JobPhase::Completed);
    assert_eq!(job.index, 1);
}

#[test]
fn accepted_statuses_advance_index_by_one() {
    let mut job = TransferJob::new(2 * MIB5 + 1);
    assert_eq!(job.slice_count, 3);
    let step = job.on_chunk_outcome(ChunkOutcome::Status(201));
    assert_eq!(step, ChunkStep::SendNext);
    assert_eq!(job.index, 1);
    let step = job.on_chunk_outcome(ChunkOutcome::Status(202));
    assert_eq!(step, ChunkStep::SendNext);
    assert_eq!(job.index, 2);
    let step = job.on_chunk_outcome(ChunkOutcome::Status(200));
    assert_eq!(step, ChunkStep::Done);
    assert_eq!(job.index, 3);
    assert_eq!(job.phase, JobPhase::Completed);
}

#[test]
fn failed_chunk_retries_with_identical_range() {
    // A 502 three times leaves the index in place; the 202 advances it.
    // Every re-sent request carries the identical Content-Range.
    let mut job = TransferJob::new(MIB5 + 1);
    let first_range = job.current_range();
    for _ in 0..3 {
        let step = job.on_chunk_outcome(ChunkOutcome::Status(502));
        assert_eq!(step, ChunkStep::Retry);
        assert_eq!(job.index, 0);
        assert_eq!(job.phase, JobPhase::Transferring);
        let again = job.current_range();
        assert_eq!(again.start, first_range.start);
        assert_eq!(again.end, first_range.end);
        assert_eq!(again.byte_len(), first_range.byte_len());
    }
    let step = job.on_chunk_outcome(ChunkOutcome::Status(202));
    assert_eq!(step, ChunkStep::SendNext);
    assert_eq!(job.index, 1);
}

#[test]
fn unauthorized_chunk_asks_for_one_refresh_then_retry() {
    let mut job = TransferJob::new(MIB5);
    let step = job.on_chunk_outcome(ChunkOutcome::Status(401));
    assert_eq!(step, ChunkStep::RefreshAndRetry);
    assert_eq!(job.index, 0);
    assert_eq!(job.phase, JobPhase::Transferring);
}

#[test]
fn transport_failure_retries_same_chunk() {
    let mut job = TransferJob::new(MIB5);
    let step = job.on_chunk_outcome(ChunkOutcome::TransportFailure);
    assert_eq!(step, ChunkStep::Retry);
    assert_eq!(job.index, 0);
}

#[test]
fn persistent_failure_aborts_at_the_cap() {
    let mut job = TransferJob::new(MIB5);
    for _ in 0..MAX_CHUNK_ATTEMPTS - 1 {
        let step = job.on_chunk_outcome(ChunkOutcome::Status(500));
        assert_eq!(step, ChunkStep::Retry);
    }
    let step = job.on_chunk_outcome(ChunkOutcome::Status(500));
    assert_eq!(step, ChunkStep::Abort(ChunkError::TooManyAttempts));
    assert_eq!(job.phase, JobPhase::Aborted);
    assert_eq!(job.index, 0);
}

#[test]
fn success_resets_the_attempt_counter() {
    let mut job = TransferJob::new(MIB5 + 1);
    for _ in 0..MAX_CHUNK_ATTEMPTS - 1 {
        job.on_chunk_outcome(ChunkOutcome::Status(500));
    }
    let step = job.on_chunk_outcome(ChunkOutcome::Status(202));
    assert_eq!(step, ChunkStep::SendNext);
    assert_eq!(job.attempts, 0);
    // The next chunk gets a fresh budget of attempts.
    let step = job.on_chunk_outcome(ChunkOutcome::Status(500));
    assert_eq!(step, ChunkStep::Retry);
    assert_eq!(job.attempts, 1);
}
