//! The single writer of the search index.
//!
//! Commands reach the writer through one mailbox and are carried out one
//! at a time. Documents are deleted by the term that names them: the key
//! of their path, or the identifier of their watch. What was written can
//! be found once a commit has succeeded.

use crate::path_string_normalization::nfc_of;
use crate::path_string_normalization::normalize_string;
use crate::schema::Field;
use crate::search_document::FieldEntry;
use crate::search_document::FieldValue;
use crate::search_document::ValueView;
use crate::watches::WatchId;
use vstd::prelude::*;

verus! {

/// The number of commands that the writer's mailbox holds.
pub const MAILBOX_CAPACITY: usize = 100_000;

/// The memory that the index writer may use, in bytes.
pub const WRITER_MEMORY: usize = 100_000_000;

/// What the writer is asked to do.
#[derive(Debug, PartialEq, Eq)]
pub enum IndexWriterCommand {
    Index { document: Vec<FieldEntry> },
    DeleteByPath { path: String },
    DeleteByWatchId { watch_id: WatchId },
    Commit,
}

/// What the writer does to the index.
#[derive(Debug, PartialEq, Eq)]
pub enum IndexOperation {
    AddDocument { document: Vec<FieldEntry> },
    /// Delete every document that has `value` in `field`.
    DeleteTerm { field: Field, value: FieldValue },
    Commit,
}

/// What the writer does for `command`.
pub fn operation_for(command: IndexWriterCommand) -> (r: IndexOperation)
    ensures
        match command {
            IndexWriterCommand::Index { document } => r matches IndexOperation::AddDocument {
                document: d,
            } && d == document,
            IndexWriterCommand::DeleteByPath { path } => r matches IndexOperation::DeleteTerm {
                field,
                value,
            } && field == Field::Path && value@ == ValueView::Text(nfc_of(path@)),
            IndexWriterCommand::DeleteByWatchId { watch_id } => r matches IndexOperation::DeleteTerm {
                field,
                value,
            } && field == Field::WatchId && value@ == ValueView::I64(watch_id.0),
            IndexWriterCommand::Commit => r is Commit,
        },
{
    match command {
        IndexWriterCommand::Index { document } => IndexOperation::AddDocument { document },
        IndexWriterCommand::DeleteByPath { path } => IndexOperation::DeleteTerm {
            field: Field::Path,
            value: FieldValue::Text(normalize_string(path.as_str())),
        },
        IndexWriterCommand::DeleteByWatchId { watch_id } => IndexOperation::DeleteTerm {
            field: Field::WatchId,
            value: FieldValue::I64(watch_id.0),
        },
        IndexWriterCommand::Commit => IndexOperation::Commit,
    }
}

} // verus!
