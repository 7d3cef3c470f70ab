//! The completion state machine: the pure rule that turns a document's
//! previous progress and the chunks just produced into its next status.
//!
//! One handler invocation processes exactly one page, so the rule is: the
//! processed-page count grows by one; if that makes it equal to the page
//! total, the document is `Completed`, otherwise it is still
//! `ChunkingFile` with the accumulated chunk count. `Errored` is never
//! produced here: only the task loop's retry policy records it, on permanent
//! handler failure.

use vstd::prelude::*;

use crate::models::{DocumentProgress, FileTaskStatus};

verus! {

/// Whether the two increments the rule performs fit in `u32`. The chunk sum
/// only matters when the document does not complete, because a completing
/// page's status carries no chunk count.
pub open spec fn increments_fit(prev: DocumentProgress, new_chunks: u32) -> bool {
    &&& prev.pages_processed < u32::MAX
    &&& (prev.pages_processed + 1 != prev.pages ==> prev.chunks + new_chunks <= u32::MAX)
}

/// The rule itself, on mathematical values.
pub open spec fn spec_next_status(prev: DocumentProgress, new_chunks: u32) -> FileTaskStatus {
    if prev.pages_processed + 1 == prev.pages {
        FileTaskStatus::Completed
    } else {
        FileTaskStatus::ChunkingFile(
            (prev.chunks + new_chunks) as u32,
            (prev.pages_processed + 1) as u32,
        )
    }
}

/// The progress record that one successful handler invocation leaves behind:
/// one more page processed, the new chunks accumulated.
pub open spec fn spec_apply_progress(prev: DocumentProgress, new_chunks: u32) -> DocumentProgress {
    DocumentProgress {
        pages: prev.pages,
        pages_processed: (prev.pages_processed + 1) as u32,
        chunks: (prev.chunks + new_chunks) as u32,
    }
}

/// Compute the next status of a document after one page produced
/// `new_chunks` chunk records.
pub fn next_status(prev: DocumentProgress, new_chunks: u32) -> (r: FileTaskStatus)
    requires
        increments_fit(prev, new_chunks),
    ensures
        r == spec_next_status(prev, new_chunks),
{
    let pages_processed = prev.pages_processed + 1;
    if pages_processed == prev.pages {
        FileTaskStatus::Completed
    } else {
        FileTaskStatus::ChunkingFile(prev.chunks + new_chunks, pages_processed)
    }
}

/// `next_status` for a progress record read from the store, whose fields no
/// caller can bound: returns `None` exactly when an increment would not fit.
pub fn checked_next_status(prev: DocumentProgress, new_chunks: u32) -> (r: Option<FileTaskStatus>)
    ensures
        r is Some <==> increments_fit(prev, new_chunks),
        r matches Some(s) ==> s == spec_next_status(prev, new_chunks),
{
    if prev.pages_processed == u32::MAX {
        return None;
    }
    let pages_processed = prev.pages_processed + 1;
    if pages_processed == prev.pages {
        Some(FileTaskStatus::Completed)
    } else {
        match prev.chunks.checked_add(new_chunks) {
            Some(total) => Some(FileTaskStatus::ChunkingFile(total, pages_processed)),
            None => None,
        }
    }
}

/// A page that still leaves the document short of its total yields
/// `ChunkingFile` with the accumulated chunk count and the incremented
/// page count.
pub proof fn lemma_next_status_in_progress(prev: DocumentProgress, new_chunks: u32)
    requires
        prev.pages_processed + 1 < prev.pages,
        prev.chunks + new_chunks <= u32::MAX,
    ensures
        spec_next_status(prev, new_chunks) == FileTaskStatus::ChunkingFile(
            (prev.chunks + new_chunks) as u32,
            (prev.pages_processed + 1) as u32,
        ),
{
}

/// The page that brings the processed count up to the total completes the
/// document, whatever number of chunks it produced (zero included).
pub proof fn lemma_next_status_completed(prev: DocumentProgress, new_chunks: u32)
    requires
        prev.pages_processed + 1 == prev.pages,
    ensures
        spec_next_status(prev, new_chunks) == FileTaskStatus::Completed,
{
}

/// One invocation advances the processed-page count by exactly one — never
/// zero, never two — whichever status it produces. Under at-least-once
/// delivery a re-delivered task therefore adds exactly one further increment
/// per invocation, nothing the state machine itself would double-count.
pub proof fn lemma_invocation_advances_by_one(prev: DocumentProgress, new_chunks: u32)
    requires
        increments_fit(prev, new_chunks),
    ensures
        spec_apply_progress(prev, new_chunks).pages_processed == prev.pages_processed + 1,
        spec_next_status(prev, new_chunks) matches FileTaskStatus::ChunkingFile(_c, p)
            ==> p == prev.pages_processed + 1,
        spec_next_status(prev, new_chunks) is Completed
            ==> prev.pages_processed + 1 == prev.pages,
{
}

/// Two invocations — a processed page and its re-delivery, say — advance the
/// processed-page count by exactly two.
pub proof fn lemma_two_invocations_advance_by_two(
    prev: DocumentProgress,
    first_chunks: u32,
    second_chunks: u32,
)
    requires
        prev.pages_processed + 2 <= u32::MAX,
        prev.chunks + first_chunks + second_chunks <= u32::MAX,
    ensures
        spec_apply_progress(spec_apply_progress(prev, first_chunks), second_chunks).pages_processed
            == prev.pages_processed + 2,
{
}

/// The progress invariant survives an invocation, and progress only ever
/// grows: as long as the document still had an unprocessed page, the new
/// record again has no more pages processed than the document has, the page
/// total is untouched, and both counters are at least what they were.
pub proof fn lemma_progress_invariant_preserved(prev: DocumentProgress, new_chunks: u32)
    requires
        prev.wf(),
        prev.pages_processed < prev.pages,
        prev.chunks + new_chunks <= u32::MAX,
    ensures
        spec_apply_progress(prev, new_chunks).wf(),
        spec_apply_progress(prev, new_chunks).pages == prev.pages,
        spec_apply_progress(prev, new_chunks).pages_processed > prev.pages_processed,
        spec_apply_progress(prev, new_chunks).chunks >= prev.chunks,
{
}

/// The completion state machine produces only the two working statuses: a
/// document never becomes `Errored` — only the retry policy records that —
/// and never falls back to `Enqueued`.
pub proof fn lemma_next_status_never_errors(prev: DocumentProgress, new_chunks: u32)
    ensures
        spec_next_status(prev, new_chunks) is ChunkingFile
            || spec_next_status(prev, new_chunks) is Completed,
{
}

} // verus!
