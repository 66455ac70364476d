//! The stages from which the jobs are built, and what each stage decides
//! for one item.
//!
//! A stage runs as one or more tasks. What a task reads from disk and
//! what the stores answer comes from outside; the functions here say what
//! follows from it.

use crate::document_service::AddDocumentError;
use crate::time::Timestamp;
use vstd::prelude::*;

verus! {

/// The stages of the job pipelines.
#[derive(Clone, Copy, Debug, PartialEq, Eq, Structural)]
pub enum Stage {
    /// Walks the directory of the watch and hands on every eligible file.
    ScanDirectory,
    /// Adds each file handed to it.
    AddDocuments,
    /// Hands on every stored document of the watch.
    GetDocuments,
    /// Deletes, refreshes or keeps each stored document handed to it.
    UpdateDocuments,
    /// Turns the stages' events into progress reports.
    Report,
}

/// What the adding stage tells of one file.
#[derive(Clone, Copy, Debug, PartialEq, Eq, Structural)]
pub enum AddDocumentsEvent {
    DocumentAdded,
    AlreadyExists,
    AddingDocumentFailed,
}

/// What the reading stage tells of one stored document.
#[derive(Clone, Copy, Debug, PartialEq, Eq, Structural)]
pub enum GetDocumentsEvent {
    DocumentFound,
}

/// What the scanning stage tells of one eligible file.
#[derive(Clone, Copy, Debug, PartialEq, Eq, Structural)]
pub enum ScanDirectoryEvent {
    FileDetected,
}

/// What the updating stage tells of one stored document.
#[derive(Clone, Copy, Debug, PartialEq, Eq, Structural)]
pub enum UpdateDocumentsEvent {
    UpToDate,
    DocumentDeleted,
    DeletingDocumentFailed,
    DocumentUpdated,
    UpdatingDocumentFailed,
}

/// The number of tasks of a stage that fans out: half the available
/// parallelism, and at least one.
pub open spec fn workers(parallelism: usize) -> usize {
    if parallelism / 2 >= 1 {
        parallelism / 2
    } else {
        1
    }
}

/// The number of tasks of a stage that fans out.
pub fn worker_count(parallelism: usize) -> (r: usize)
    ensures
        r == workers(parallelism),
        r >= 1,
{
    if parallelism / 2 >= 1 {
        parallelism / 2
    } else {
        1
    }
}

/// What the adding stage tells after an add ended with `result`: an
/// existing document is no failure, every other error is.
pub fn add_documents_event(result: &Result<(), AddDocumentError>) -> (r: AddDocumentsEvent)
    ensures
        r == match *result {
            Ok(()) => AddDocumentsEvent::DocumentAdded,
            Err(AddDocumentError::AlreadyExists) => AddDocumentsEvent::AlreadyExists,
            Err(_) => AddDocumentsEvent::AddingDocumentFailed,
        },
{
    match result {
        Ok(()) => AddDocumentsEvent::DocumentAdded,
        Err(AddDocumentError::AlreadyExists) => AddDocumentsEvent::AlreadyExists,
        Err(_) => AddDocumentsEvent::AddingDocumentFailed,
    }
}

/// What the updating stage does with one stored document.
#[derive(Clone, Copy, Debug, PartialEq, Eq, Structural)]
pub enum UpdateDocumentsStep {
    /// The file is no longer eligible: delete the document.
    DeleteDocument,
    /// The file is eligible: read when it was last modified.
    ReadModifiedTime,
    /// The index is older than the file: refresh the document.
    UpdateDocument,
    /// Nothing is left to do but to tell `event`.
    Tell(UpdateDocumentsEvent),
}

/// The index entry of a document is stale: it was never written, or the
/// file was modified after it was written.
pub open spec fn stale(indexed_at: Option<Timestamp>, modified_at: Timestamp) -> bool {
    match indexed_at {
        Some(at) => at.before(modified_at),
        None => true,
    }
}

/// Whether the index entry of a document is stale.
pub fn is_stale(indexed_at: Option<Timestamp>, modified_at: Timestamp) -> (r: bool)
    ensures
        r == stale(indexed_at, modified_at),
{
    match indexed_at {
        Some(at) => at.is_before(&modified_at),
        None => true,
    }
}

/// The first step for a stored document, given whether its file is
/// eligible now.
pub fn update_documents_first_step(eligible: bool) -> (r: UpdateDocumentsStep)
    ensures
        r == if eligible {
            UpdateDocumentsStep::ReadModifiedTime
        } else {
            UpdateDocumentsStep::DeleteDocument
        },
{
    if eligible {
        UpdateDocumentsStep::ReadModifiedTime
    } else {
        UpdateDocumentsStep::DeleteDocument
    }
}

/// The step for an eligible document once the file's time of
/// modification is known.
pub fn update_documents_after_modified_time(
    indexed_at: Option<Timestamp>,
    modified_at: Timestamp,
) -> (r: UpdateDocumentsStep)
    ensures
        r == if stale(indexed_at, modified_at) {
            UpdateDocumentsStep::UpdateDocument
        } else {
            UpdateDocumentsStep::Tell(UpdateDocumentsEvent::UpToDate)
        },
{
    if is_stale(indexed_at, modified_at) {
        UpdateDocumentsStep::UpdateDocument
    } else {
        UpdateDocumentsStep::Tell(UpdateDocumentsEvent::UpToDate)
    }
}

/// The step for an eligible document once the read of the file's time of
/// modification has ended. Where the time cannot be read the document
/// counts as failed, and the stage goes on with the next document.
pub fn update_documents_after_read(
    indexed_at: Option<Timestamp>,
    modified_at: Result<Timestamp, String>,
) -> (r: UpdateDocumentsStep)
    ensures
        r == match modified_at {
            Ok(m) => if stale(indexed_at, m) {
                UpdateDocumentsStep::UpdateDocument
            } else {
                UpdateDocumentsStep::Tell(UpdateDocumentsEvent::UpToDate)
            },
            Err(_) => UpdateDocumentsStep::Tell(UpdateDocumentsEvent::UpdatingDocumentFailed),
        },
{
    match modified_at {
        Ok(m) => update_documents_after_modified_time(indexed_at, m),
        Err(_) => UpdateDocumentsStep::Tell(UpdateDocumentsEvent::UpdatingDocumentFailed),
    }
}

/// What the scanning stage tells of one entry of the walk: a detected
/// file where the entry could be read and is eligible, and nothing
/// otherwise. An entry that cannot be read does not end the walk.
pub fn scan_directory_event(readable: bool, eligible: bool) -> (r: Option<ScanDirectoryEvent>)
    ensures
        r == if readable && eligible {
            Some(ScanDirectoryEvent::FileDetected)
        } else {
            None
        },
{
    if readable && eligible {
        Some(ScanDirectoryEvent::FileDetected)
    } else {
        None
    }
}

/// What the updating stage tells after a deletion that succeeded or not.
pub fn update_documents_after_delete(deleted: bool) -> (r: UpdateDocumentsEvent)
    ensures
        r == if deleted {
            UpdateDocumentsEvent::DocumentDeleted
        } else {
            UpdateDocumentsEvent::DeletingDocumentFailed
        },
{
    if deleted {
        UpdateDocumentsEvent::DocumentDeleted
    } else {
        UpdateDocumentsEvent::DeletingDocumentFailed
    }
}

/// What the updating stage tells after a refresh that succeeded or not.
pub fn update_documents_after_update(updated: bool) -> (r: UpdateDocumentsEvent)
    ensures
        r == if updated {
            UpdateDocumentsEvent::DocumentUpdated
        } else {
            UpdateDocumentsEvent::UpdatingDocumentFailed
        },
{
    if updated {
        UpdateDocumentsEvent::DocumentUpdated
    } else {
        UpdateDocumentsEvent::UpdatingDocumentFailed
    }
}

} // verus!
