//! Data carried between the worker's components: tasks, progress records,
//! document statuses, and the error taxonomy.

use vstd::prelude::*;

verus! {

/// One unit of work pulled from the queue: one page of a larger document.
/// The identifier is the document's 128-bit UUID, written here as its integer
/// value; the file name locates the page's bytes in object storage.
#[derive(Clone, Debug)]
pub struct ChunkingTask {
    pub task_id: u128,
    pub file_name: String,
}

/// Why a handler attempt failed. Transient infrastructure faults and missing
/// objects are distinguished from malformed data and unexpected store errors
/// because the operator reading an `Errored` status needs to know which it was.
#[derive(Clone, Copy, Debug, PartialEq, Eq, Structural)]
pub enum WorkerError {
    /// A connection or network fault that is expected to heal.
    TransientInfra,
    /// The object named by the task is not in object storage.
    NotFound,
    /// The task payload or a stored record was malformed.
    Data,
    /// The store failed in a way the worker cannot explain.
    Internal,
}

/// Aggregate progress of one document, persisted in the analytical store and
/// re-read fresh by every handler invocation: how many pages the document
/// has, how many have been chunked so far, and how many chunk records those
/// pages produced in total.
#[derive(Clone, Copy, Debug, PartialEq, Eq, Structural)]
pub struct DocumentProgress {
    pub pages: u32,
    pub pages_processed: u32,
    pub chunks: u32,
}

impl DocumentProgress {
    /// Invariant of a stored progress record: no more pages processed than
    /// the document has.
    pub open spec fn wf(self) -> bool {
        self.pages_processed <= self.pages
    }

    /// A fresh record for a document of `pages` pages: nothing processed yet.
    pub fn new(pages: u32) -> (r: DocumentProgress)
        ensures
            r.pages == pages,
            r.pages_processed == 0,
            r.chunks == 0,
            r.wf(),
    {
        DocumentProgress { pages, pages_processed: 0, chunks: 0 }
    }
}

/// The one current status of a document. `ChunkingFile` carries the chunks
/// accumulated so far and the pages processed so far. `Completed` and
/// `Errored` are terminal: nothing in this crate computes a transition out
/// of either.
#[derive(Clone, Copy, Debug, PartialEq, Eq, Structural)]
pub enum FileTaskStatus {
    Enqueued,
    ChunkingFile(u32, u32),
    Completed,
    Errored(WorkerError),
}

impl FileTaskStatus {
    /// Terminal statuses: once written, a document's status never changes.
    pub open spec fn is_terminal(self) -> bool {
        self is Completed || self is Errored
    }
}

} // verus!
