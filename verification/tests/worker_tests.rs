use chunk_worker::backoff::Backoff;
use chunk_worker::handler::{handler_action, handler_step, HandlerAction, HandlerEvent, HandlerState};
use chunk_worker::models::{DocumentProgress, FileTaskStatus, WorkerError};
use chunk_worker::retry::{status_for_action, LoopAction, TaskRetryState};
use chunk_worker::status::{checked_next_status, next_status};

fn progress(pages: u32, pages_processed: u32, chunks: u32) -> DocumentProgress {
    DocumentProgress { pages, pages_processed, chunks }
}

#[test]
fn next_status_stays_in_progress_short_of_total() {
    let s = next_status(progress(3, 0, 0), 2);
    assert_eq!(s, FileTaskStatus::ChunkingFile(2, 1));
    let s = next_status(progress(10, 5, 40), 7);
    assert_eq!(s, FileTaskStatus::ChunkingFile(47, 6));
}

#[test]
fn next_status_completes_on_last_page_regardless_of_chunks() {
    assert_eq!(next_status(progress(3, 2, 4), 2), FileTaskStatus::Completed);
    assert_eq!(next_status(progress(1, 0, 0), 0), FileTaskStatus::Completed);
    assert_eq!(next_status(progress(5, 4, 100), 0), FileTaskStatus::Completed);
}

#[test]
fn next_status_accepts_zero_chunks_in_progress() {
    assert_eq!(next_status(progress(4, 1, 9), 0), FileTaskStatus::ChunkingFile(9, 2));
}

#[test]
fn checked_next_status_rejects_overflowing_increments() {
    assert_eq!(checked_next_status(progress(u32::MAX, u32::MAX, 0), 1), None);
    assert_eq!(checked_next_status(progress(10, 2, u32::MAX), 1), None);
    assert_eq!(
        checked_next_status(progress(3, 0, 0), 2),
        Some(FileTaskStatus::ChunkingFile(2, 1))
    );
    // The completing page carries no chunk sum, so a sum that would not fit
    // does not matter there.
    assert_eq!(checked_next_status(progress(3, 2, u32::MAX), 1), Some(FileTaskStatus::Completed));
}

#[test]
fn three_page_document_reaches_completed() {
    // A document of three pages, from a fresh progress record; each page
    // produces two chunks. The statuses written are ChunkingFile(2,1),
    // ChunkingFile(4,2), Completed.
    let mut p = DocumentProgress::new(3);
    let mut statuses = Vec::new();
    for _ in 0..3 {
        let s = next_status(p, 2);
        statuses.push(s);
        p = match s {
            FileTaskStatus::ChunkingFile(chunks, pages_processed) => DocumentProgress {
                pages: p.pages,
                pages_processed,
                chunks,
            },
            FileTaskStatus::Completed => DocumentProgress {
                pages: p.pages,
                pages_processed: p.pages_processed + 1,
                chunks: p.chunks + 2,
            },
            other => panic!("unexpected status {:?}", other),
        };
    }
    assert_eq!(
        statuses,
        vec![
            FileTaskStatus::ChunkingFile(2, 1),
            FileTaskStatus::ChunkingFile(4, 2),
            FileTaskStatus::Completed,
        ]
    );
}

#[test]
fn three_handler_invocations_yield_expected_statuses() {
    // The same document as above, driven through the full handler state
    // machine three times; the status written by each invocation is captured
    // at its WriteStatus step.
    let mut p = DocumentProgress::new(3);
    let mut written = Vec::new();
    for _ in 0..3 {
        let mut st = HandlerState::FetchingFile;
        st = handler_step(&st, &HandlerEvent::FetchSucceeded);
        st = handler_step(&st, &HandlerEvent::ChunkingSucceeded { chunk_count: 2 });
        st = handler_step(&st, &HandlerEvent::InsertSucceeded);
        st = handler_step(&st, &HandlerEvent::ProgressRead { progress: p });
        let status = match handler_action(&st) {
            HandlerAction::WriteStatus { status } => status,
            other => panic!("unexpected action {:?}", other),
        };
        written.push(status);
        st = handler_step(&st, &HandlerEvent::StatusWritten);
        assert_eq!(handler_action(&st), HandlerAction::ReportSuccess);
        p = DocumentProgress {
            pages: p.pages,
            pages_processed: p.pages_processed + 1,
            chunks: p.chunks + 2,
        };
    }
    assert_eq!(
        written,
        vec![
            FileTaskStatus::ChunkingFile(2, 1),
            FileTaskStatus::ChunkingFile(4, 2),
            FileTaskStatus::Completed,
        ]
    );
}

#[test]
fn each_invocation_advances_pages_processed_by_exactly_one() {
    // Re-delivery of an already-processed task: every invocation re-reads
    // progress and advances the processed count by exactly one, never more.
    let first = next_status(progress(5, 1, 3), 4);
    assert_eq!(first, FileTaskStatus::ChunkingFile(7, 2));
    let second = next_status(progress(5, 2, 7), 4);
    assert_eq!(second, FileTaskStatus::ChunkingFile(11, 3));
}

#[test]
fn backoff_first_delay_is_one() {
    let b = Backoff::new();
    assert_eq!(b.current_delay(), 1);
}

#[test]
fn backoff_doubles_and_caps_at_300() {
    let mut b = Backoff::new();
    let mut delays = Vec::new();
    for _ in 0..12 {
        delays.push(b.next_delay());
    }
    assert_eq!(delays, vec![1, 2, 4, 8, 16, 32, 64, 128, 256, 300, 300, 300]);
    // Never decreasing, never above the cap.
    for w in delays.windows(2) {
        assert!(w[0] <= w[1]);
    }
    for d in delays {
        assert!((1..=300).contains(&d));
    }
}

#[test]
fn successful_handler_run_writes_computed_status_and_succeeds() {
    let st = HandlerState::FetchingFile;
    assert_eq!(handler_action(&st), HandlerAction::FetchObject);
    let st = handler_step(&st, &HandlerEvent::FetchSucceeded);
    assert_eq!(handler_action(&st), HandlerAction::RunChunker);
    let st = handler_step(&st, &HandlerEvent::ChunkingSucceeded { chunk_count: 2 });
    assert_eq!(handler_action(&st), HandlerAction::InsertBatch);
    let st = handler_step(&st, &HandlerEvent::InsertSucceeded);
    assert_eq!(handler_action(&st), HandlerAction::ReadProgress);
    let st = handler_step(&st, &HandlerEvent::ProgressRead { progress: progress(3, 0, 0) });
    assert_eq!(
        handler_action(&st),
        HandlerAction::WriteStatus { status: FileTaskStatus::ChunkingFile(2, 1) }
    );
    let st = handler_step(&st, &HandlerEvent::StatusWritten);
    assert_eq!(handler_action(&st), HandlerAction::ReportSuccess);
}

#[test]
fn missing_object_fails_handler_without_insert() {
    // Object storage reports NotFound: the run fails at once with that
    // error, and no state of the run ever asks for the batch insert.
    let st = handler_step(&HandlerState::FetchingFile, &HandlerEvent::FetchNotFound);
    assert_eq!(st, HandlerState::Failed { error: WorkerError::NotFound });
    assert_eq!(
        handler_action(&st),
        HandlerAction::ReportFailure { error: WorkerError::NotFound }
    );
}

#[test]
fn exhausted_retries_record_errored_status() {
    // The NotFound failure enters the loop's retry path; after the bounded
    // attempts are exhausted the document's status becomes Errored.
    let mut retry = TaskRetryState::new(3);
    let outcome: Result<(), WorkerError> = Err(WorkerError::NotFound);
    let a1 = retry.record_outcome(&outcome);
    assert_eq!(a1, LoopAction::Requeue);
    assert_eq!(status_for_action(&a1), None);
    let a2 = retry.record_outcome(&outcome);
    assert_eq!(a2, LoopAction::Requeue);
    let a3 = retry.record_outcome(&outcome);
    assert_eq!(a3, LoopAction::RecordFailure(WorkerError::NotFound));
    assert_eq!(
        status_for_action(&a3),
        Some(FileTaskStatus::Errored(WorkerError::NotFound))
    );
}

#[test]
fn success_is_acknowledged_whatever_the_attempt_count() {
    let mut retry = TaskRetryState::new(2);
    let _ = retry.record_outcome(&Err(WorkerError::TransientInfra));
    let a = retry.record_outcome(&Ok(()));
    assert_eq!(a, LoopAction::Acknowledge);
    assert_eq!(status_for_action(&a), None);
}

#[test]
fn malformed_payload_takes_the_same_retry_path() {
    // A payload that does not parse is treated as a handler failure with a
    // data error, eligible for the same bounded retry.
    let mut retry = TaskRetryState::new(1);
    let a = retry.record_outcome(&Err(WorkerError::Data));
    assert_eq!(a, LoopAction::RecordFailure(WorkerError::Data));
    assert_eq!(
        status_for_action(&a),
        Some(FileTaskStatus::Errored(WorkerError::Data))
    );
}

#[test]
fn every_error_variant_has_a_handler_path() {
    let failed = |e: WorkerError| HandlerState::Failed { error: e };
    assert_eq!(
        handler_step(&HandlerState::FetchingFile, &HandlerEvent::FetchTransportFailed),
        failed(WorkerError::TransientInfra)
    );
    assert_eq!(
        handler_step(&HandlerState::FetchingFile, &HandlerEvent::FetchNotFound),
        failed(WorkerError::NotFound)
    );
    assert_eq!(
        handler_step(&HandlerState::ChunkingBytes, &HandlerEvent::ChunkingFailed),
        failed(WorkerError::Data)
    );
    assert_eq!(
        handler_step(&HandlerState::InsertingChunks { chunk_count: 1 }, &HandlerEvent::InsertFailed),
        failed(WorkerError::Internal)
    );
    assert_eq!(
        handler_step(&HandlerState::ReadingProgress { chunk_count: 1 }, &HandlerEvent::ProgressReadFailed),
        failed(WorkerError::Internal)
    );
    assert_eq!(
        handler_step(
            &HandlerState::WritingStatus { status: FileTaskStatus::Completed },
            &HandlerEvent::StatusWriteFailed
        ),
        failed(WorkerError::Internal)
    );
}

#[test]
fn overflowing_progress_record_is_a_data_error() {
    let st = handler_step(
        &HandlerState::ReadingProgress { chunk_count: 1 },
        &HandlerEvent::ProgressRead { progress: progress(10, 2, u32::MAX) },
    );
    assert_eq!(st, HandlerState::Failed { error: WorkerError::Data });
}

#[test]
fn event_for_the_wrong_step_is_an_internal_fault() {
    let st = handler_step(&HandlerState::FetchingFile, &HandlerEvent::InsertSucceeded);
    assert_eq!(st, HandlerState::Failed { error: WorkerError::Internal });
}

#[test]
fn terminal_handler_states_absorb_events() {
    let done = HandlerState::Succeeded;
    assert_eq!(handler_step(&done, &HandlerEvent::FetchNotFound), done);
    let failed = HandlerState::Failed { error: WorkerError::NotFound };
    assert_eq!(handler_step(&failed, &HandlerEvent::StatusWritten), failed);
}

#[test]
fn empty_page_with_zero_chunks_runs_through() {
    let st = handler_step(&HandlerState::ChunkingBytes, &HandlerEvent::ChunkingSucceeded { chunk_count: 0 });
    assert_eq!(st, HandlerState::InsertingChunks { chunk_count: 0 });
}

#[test]
fn fresh_progress_record_is_empty() {
    let p = DocumentProgress::new(7);
    assert_eq!(p, progress(7, 0, 0));
}
