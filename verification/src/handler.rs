//! The chunk ingestion handler, as a state machine over the outcomes of its
//! external steps.
//!
//! One handler invocation processes one task: fetch the page's bytes from
//! object storage, run the chunker, batch-insert the chunk records, re-read
//! the document's current progress (fresh, because concurrent workers may
//! have advanced it), and write the next status back. The worker process
//! performs each of those external operations and feeds the outcome back as
//! a [`HandlerEvent`]; this module decides, for every state and event, what
//! the handler does next. A run ends in `Succeeded` or in `Failed` with one
//! error of the taxonomy — the retry policy takes it from there.
//!
//! The fresh progress read is the run's only synchronization point with
//! other workers, and the status write is unconditional. That keeps the
//! known read-modify-write race between concurrent workers on the same
//! document: with a store that offers no compare-and-swap, a lost update is
//! tolerated rather than prevented, a deliberate choice over inventing
//! coordination the store does not have.

use vstd::prelude::*;

use crate::models::{DocumentProgress, FileTaskStatus, WorkerError};
use crate::status::{increments_fit, spec_next_status, checked_next_status};

verus! {

/// Where a handler invocation stands. Each non-terminal state names the one
/// external operation awaited; the two terminal states absorb every further
/// event.
#[derive(Clone, Copy, Debug, PartialEq, Eq, Structural)]
pub enum HandlerState {
    /// Awaiting the page's bytes from object storage.
    FetchingFile,
    /// Awaiting the chunker's records for the fetched bytes.
    ChunkingBytes,
    /// Awaiting the batch insert of `chunk_count` records. The batch is
    /// all-or-nothing: a partial failure fails the whole operation.
    InsertingChunks { chunk_count: u32 },
    /// Awaiting a fresh read of the document's progress record.
    ReadingProgress { chunk_count: u32 },
    /// Awaiting the write of the computed next status.
    WritingStatus { status: FileTaskStatus },
    /// The invocation is done; the task can be acknowledged.
    Succeeded,
    /// The invocation failed; the retry policy decides what happens to the
    /// task.
    Failed { error: WorkerError },
}

/// The outcome of one external operation, as the worker process reports it.
#[derive(Clone, Copy, Debug, PartialEq, Eq, Structural)]
pub enum HandlerEvent {
    /// Object storage returned the page's bytes.
    FetchSucceeded,
    /// Object storage has no object under the task's file name.
    FetchNotFound,
    /// Object storage could not be reached.
    FetchTransportFailed,
    /// The chunker produced this many records (zero is a valid result: an
    /// empty page has no chunks).
    ChunkingSucceeded { chunk_count: usize },
    /// The chunker rejected the bytes.
    ChunkingFailed,
    /// The batch insert committed as a whole.
    InsertSucceeded,
    /// The batch insert failed; nothing of it is visible.
    InsertFailed,
    /// The store returned the document's current progress.
    ProgressRead { progress: DocumentProgress },
    /// The progress record could not be read.
    ProgressReadFailed,
    /// The status write committed.
    StatusWritten,
    /// The status write failed.
    StatusWriteFailed,
}

/// The external operation the worker must perform in a state, or the
/// outcome it must report to the task loop.
#[derive(Clone, Copy, Debug, PartialEq, Eq, Structural)]
pub enum HandlerAction {
    FetchObject,
    RunChunker,
    InsertBatch,
    ReadProgress,
    WriteStatus { status: FileTaskStatus },
    ReportSuccess,
    ReportFailure { error: WorkerError },
}

/// The transition table. Every state/event pair has a next state: outcomes
/// of the awaited operation advance or fail the run, terminal states absorb
/// everything, and an event that does not belong to the awaited operation is
/// an internal fault.
pub open spec fn spec_handler_step(state: HandlerState, event: HandlerEvent) -> HandlerState {
    match (state, event) {
        (HandlerState::FetchingFile, HandlerEvent::FetchSucceeded) => HandlerState::ChunkingBytes,
        (HandlerState::FetchingFile, HandlerEvent::FetchNotFound) =>
            HandlerState::Failed { error: WorkerError::NotFound },
        (HandlerState::FetchingFile, HandlerEvent::FetchTransportFailed) =>
            HandlerState::Failed { error: WorkerError::TransientInfra },
        (HandlerState::ChunkingBytes, HandlerEvent::ChunkingSucceeded { chunk_count }) =>
            if chunk_count <= u32::MAX {
                HandlerState::InsertingChunks { chunk_count: chunk_count as u32 }
            } else {
                HandlerState::Failed { error: WorkerError::Data }
            },
        (HandlerState::ChunkingBytes, HandlerEvent::ChunkingFailed) =>
            HandlerState::Failed { error: WorkerError::Data },
        (HandlerState::InsertingChunks { chunk_count }, HandlerEvent::InsertSucceeded) =>
            HandlerState::ReadingProgress { chunk_count },
        (HandlerState::InsertingChunks { .. }, HandlerEvent::InsertFailed) =>
            HandlerState::Failed { error: WorkerError::Internal },
        (HandlerState::ReadingProgress { chunk_count }, HandlerEvent::ProgressRead { progress }) =>
            if increments_fit(progress, chunk_count) {
                HandlerState::WritingStatus { status: spec_next_status(progress, chunk_count) }
            } else {
                HandlerState::Failed { error: WorkerError::Data }
            },
        (HandlerState::ReadingProgress { .. }, HandlerEvent::ProgressReadFailed) =>
            HandlerState::Failed { error: WorkerError::Internal },
        (HandlerState::WritingStatus { .. }, HandlerEvent::StatusWritten) => HandlerState::Succeeded,
        (HandlerState::WritingStatus { .. }, HandlerEvent::StatusWriteFailed) =>
            HandlerState::Failed { error: WorkerError::Internal },
        (HandlerState::Succeeded, _) => HandlerState::Succeeded,
        (HandlerState::Failed { error }, _) => HandlerState::Failed { error },
        _ => HandlerState::Failed { error: WorkerError::Internal },
    }
}

/// Advance one handler invocation by the outcome of its awaited operation.
pub fn handler_step(state: &HandlerState, event: &HandlerEvent) -> (next: HandlerState)
    ensures
        next == spec_handler_step(*state, *event),
{
    match (state, event) {
        (HandlerState::FetchingFile, HandlerEvent::FetchSucceeded) => HandlerState::ChunkingBytes,
        (HandlerState::FetchingFile, HandlerEvent::FetchNotFound) =>
            HandlerState::Failed { error: WorkerError::NotFound },
        (HandlerState::FetchingFile, HandlerEvent::FetchTransportFailed) =>
            HandlerState::Failed { error: WorkerError::TransientInfra },
        (HandlerState::ChunkingBytes, HandlerEvent::ChunkingSucceeded { chunk_count }) => {
            if *chunk_count <= u32::MAX as usize {
                HandlerState::InsertingChunks { chunk_count: *chunk_count as u32 }
            } else {
                HandlerState::Failed { error: WorkerError::Data }
            }
        },
        (HandlerState::ChunkingBytes, HandlerEvent::ChunkingFailed) =>
            HandlerState::Failed { error: WorkerError::Data },
        (HandlerState::InsertingChunks { chunk_count }, HandlerEvent::InsertSucceeded) =>
            HandlerState::ReadingProgress { chunk_count: *chunk_count },
        (HandlerState::InsertingChunks { .. }, HandlerEvent::InsertFailed) =>
            HandlerState::Failed { error: WorkerError::Internal },
        (HandlerState::ReadingProgress { chunk_count }, HandlerEvent::ProgressRead { progress }) => {
            match checked_next_status(*progress, *chunk_count) {
                Some(status) => HandlerState::WritingStatus { status },
                None => HandlerState::Failed { error: WorkerError::Data },
            }
        },
        (HandlerState::ReadingProgress { .. }, HandlerEvent::ProgressReadFailed) =>
            HandlerState::Failed { error: WorkerError::Internal },
        (HandlerState::WritingStatus { .. }, HandlerEvent::StatusWritten) => HandlerState::Succeeded,
        (HandlerState::WritingStatus { .. }, HandlerEvent::StatusWriteFailed) =>
            HandlerState::Failed { error: WorkerError::Internal },
        (HandlerState::Succeeded, _) => HandlerState::Succeeded,
        (HandlerState::Failed { error }, _) => HandlerState::Failed { error: *error },
        _ => HandlerState::Failed { error: WorkerError::Internal },
    }
}

/// What the worker does in a state: the awaited operation of a non-terminal
/// state, or the report that ends the invocation.
pub open spec fn spec_handler_action(state: HandlerState) -> HandlerAction {
    match state {
        HandlerState::FetchingFile => HandlerAction::FetchObject,
        HandlerState::ChunkingBytes => HandlerAction::RunChunker,
        HandlerState::InsertingChunks { .. } => HandlerAction::InsertBatch,
        HandlerState::ReadingProgress { .. } => HandlerAction::ReadProgress,
        HandlerState::WritingStatus { status } => HandlerAction::WriteStatus { status },
        HandlerState::Succeeded => HandlerAction::ReportSuccess,
        HandlerState::Failed { error } => HandlerAction::ReportFailure { error },
    }
}

/// The operation to perform, or the outcome to report, in a state.
pub fn handler_action(state: &HandlerState) -> (a: HandlerAction)
    ensures
        a == spec_handler_action(*state),
{
    match state {
        HandlerState::FetchingFile => HandlerAction::FetchObject,
        HandlerState::ChunkingBytes => HandlerAction::RunChunker,
        HandlerState::InsertingChunks { .. } => HandlerAction::InsertBatch,
        HandlerState::ReadingProgress { .. } => HandlerAction::ReadProgress,
        HandlerState::WritingStatus { status } => HandlerAction::WriteStatus { status: *status },
        HandlerState::Succeeded => HandlerAction::ReportSuccess,
        HandlerState::Failed { error } => HandlerAction::ReportFailure { error: *error },
    }
}

/// A handler run never writes a status other than the one the completion
/// state machine computed from the progress it read and the chunk count it
/// inserted.
pub proof fn lemma_handler_writes_next_status(chunk_count: u32, progress: DocumentProgress)
    requires
        increments_fit(progress, chunk_count),
    ensures
        spec_handler_step(
            HandlerState::ReadingProgress { chunk_count },
            HandlerEvent::ProgressRead { progress },
        ) == (HandlerState::WritingStatus { status: spec_next_status(progress, chunk_count) }),
{
}

/// A complete successful run, composed step by step: from the initial state,
/// the five outcomes fetch, chunk, insert, progress and status-written lead
/// through exactly one batch insert of the chunker's records, one fresh
/// progress read, and one write of the status the completion state machine
/// computes from that progress and that chunk count — and end in `Succeeded`.
pub proof fn lemma_successful_run(chunk_count: usize, progress: DocumentProgress)
    requires
        chunk_count <= u32::MAX,
        increments_fit(progress, chunk_count as u32),
    ensures
        ({
            let fetched = spec_handler_step(HandlerState::FetchingFile, HandlerEvent::FetchSucceeded);
            let chunked = spec_handler_step(fetched, HandlerEvent::ChunkingSucceeded { chunk_count });
            let inserted = spec_handler_step(chunked, HandlerEvent::InsertSucceeded);
            let read = spec_handler_step(inserted, HandlerEvent::ProgressRead { progress });
            let written = spec_handler_step(read, HandlerEvent::StatusWritten);
            &&& chunked == (HandlerState::InsertingChunks { chunk_count: chunk_count as u32 })
            &&& inserted == (HandlerState::ReadingProgress { chunk_count: chunk_count as u32 })
            &&& read == (HandlerState::WritingStatus {
                status: spec_next_status(progress, chunk_count as u32),
            })
            &&& written is Succeeded
        }),
{
}

/// Terminal states are terminal: no event moves a run out of `Succeeded` or
/// out of `Failed`, and a failure keeps its error.
pub proof fn lemma_terminal_states_absorb(state: HandlerState, event: HandlerEvent)
    requires
        state is Succeeded || state is Failed,
    ensures
        spec_handler_step(state, event) == state,
{
}

/// The one transition that reaches the insert step: a chunker success, with
/// a record count that fits, in the chunking state.
pub open spec fn advances_to_insert(state: HandlerState, event: HandlerEvent) -> bool {
    &&& state is ChunkingBytes
    &&& event matches HandlerEvent::ChunkingSucceeded { chunk_count } && chunk_count <= u32::MAX
}

/// A run that fails before its chunks exist never inserts: from
/// `FetchingFile` or `ChunkingBytes`, only a fitting chunker success reaches
/// a state whose action is the batch insert — a missing object, in
/// particular, writes nothing for that attempt.
pub proof fn lemma_no_insert_before_chunks(state: HandlerState, event: HandlerEvent)
    requires
        state is FetchingFile || state is ChunkingBytes,
        !advances_to_insert(state, event),
    ensures
        spec_handler_action(spec_handler_step(state, event)) != HandlerAction::InsertBatch,
{
}

} // verus!
