//! The document service: one document is added, refreshed or deleted in
//! both stores, the table of documents and the search index.
//!
//! The service itself only decides. Each operation is a short protocol:
//! the caller carries out the step it is given against the stores and
//! hands back how the step ended, and the protocol names the next step or
//! the operation's result.

use crate::document_events::DocumentEvent;
use crate::document_db_command_processor::Command;
use crate::documents::Document;
use crate::index_writer::IndexWriterCommand;
use crate::time::Timestamp;
use crate::watches::WatchId;
use vstd::prelude::*;
use vstd::string::StringExecFns;

verus! {

/// Why a document could not be added.
#[derive(Debug, PartialEq, Eq)]
pub enum AddDocumentError {
    /// The gatekeeper rejected the file.
    NotEligible,
    /// The path lies in no watch.
    NoWatchFound,
    /// The table already holds the path.
    AlreadyExists,
    /// A store failed; the text says how.
    Other(String),
}

/// Why a document could not be refreshed.
#[derive(Debug, PartialEq, Eq)]
pub enum UpdateDocumentError {
    /// The gatekeeper rejected the file.
    NotEligible,
    /// The path lies in no watch.
    NoWatchFound,
    /// The table does not hold the path.
    NotExists,
    /// A store failed; the text says how.
    Other(String),
}

/// Why a document could not be deleted.
#[derive(Debug, PartialEq, Eq)]
pub enum DeleteDocumentError {
    /// The table does not hold the path.
    NotExists,
    /// A store failed; the text says how.
    Other(String),
}

/// Why the table of documents refused a command.
#[derive(Debug, PartialEq, Eq)]
pub enum RepositoryError {
    /// The path is in the table already.
    UniqueConstraintViolation,
    /// The database reported an error; the text says which.
    Database(String),
    /// The connection to the database failed; the text says how.
    Sqlx(String),
    /// Anything else.
    Other(String),
}

impl RepositoryError {
    /// The error's text, as it is handed on.
    pub open spec fn message(self) -> String {
        match self {
            RepositoryError::UniqueConstraintViolation => arbitrary(),
            RepositoryError::Database(text) => text,
            RepositoryError::Sqlx(text) => text,
            RepositoryError::Other(text) => text,
        }
    }
}

/// How a step against a store ended, where the step brings nothing back.
pub type StepResult = Result<(), String>;

/// What the caller of an add does next. Each step carries what the
/// protocol needs to go on after it.
#[derive(Debug, PartialEq, Eq)]
pub enum AddDocumentStep {
    /// Write the file to the index; `document` is the row just inserted.
    IndexDocument { document: Document },
    /// Set the row's time of indexing to now: the index has taken the
    /// file of `document`.
    SetIndexedAt { document: Document },
    /// Delete the row of the path from the table: the index refused the
    /// file with `index_error`.
    DeleteRow { index_error: String },
    /// Tell the listeners.
    Emit { event: DocumentEvent },
    /// The add has ended.
    Done(Result<(), AddDocumentError>),
}

/// What the caller of a refresh does next.
#[derive(Debug, PartialEq, Eq)]
pub enum UpdateDocumentStep {
    /// Write the file to the index.
    IndexDocument,
    /// Set the row's time of indexing to now.
    UpdateRow,
    /// Tell the listeners.
    Emit { event: DocumentEvent },
    /// The refresh has ended.
    Done(Result<(), UpdateDocumentError>),
}

/// What the caller of a deletion does next.
#[derive(Debug, PartialEq, Eq)]
pub enum DeleteDocumentStep {
    /// Delete the path from the index; `document` is the row just deleted.
    DeleteFromIndex { document: Document },
    /// Tell the listeners.
    Emit { event: DocumentEvent },
    /// The deletion has ended.
    Done(Result<(), DeleteDocumentError>),
}

/// What the caller does after the lookup of the watch that holds a path.
#[derive(Debug, Clone, Copy, PartialEq, Eq, Structural)]
pub enum WatchLookupStep {
    /// Go on with the watch that was found.
    Proceed { watch_id: WatchId },
    /// No watch holds the path: the operation ends with `NoWatchFound`.
    NoWatchFound,
}

/// The step after the insert of an add ended with `result`. An add starts
/// with the insert of the row, without a time of indexing.
pub open spec fn add_after_insert(result: Result<Document, RepositoryError>) -> AddDocumentStep {
    match result {
        Ok(document) => AddDocumentStep::IndexDocument { document },
        Err(RepositoryError::UniqueConstraintViolation) => AddDocumentStep::Done(
            Err(AddDocumentError::AlreadyExists),
        ),
        Err(e) => AddDocumentStep::Done(Err(AddDocumentError::Other(e.message()))),
    }
}

/// The step after the index write of an add ended with `result`: after a
/// write that succeeded the row's time of indexing is set, which was
/// empty until then; a failed write is followed by the deletion of the
/// row.
pub open spec fn add_after_index(document: Document, result: StepResult) -> AddDocumentStep {
    match result {
        Ok(()) => AddDocumentStep::SetIndexedAt { document },
        Err(index_error) => AddDocumentStep::DeleteRow { index_error },
    }
}

/// The text of the error of an add whose row is gone when its time of
/// indexing is to be set.
pub open spec fn row_gone_text() -> Seq<char> {
    "the document does not exist"@
}

/// The end of an add whose index write failed with `index_error`, after
/// the deletion of the row ended with `result`: the add fails either way,
/// with the error of the deletion where that failed too.
pub open spec fn add_after_compensation(index_error: String, result: StepResult) -> AddDocumentStep {
    match result {
        Ok(()) => AddDocumentStep::Done(Err(AddDocumentError::Other(index_error))),
        Err(delete_error) => AddDocumentStep::Done(Err(AddDocumentError::Other(delete_error))),
    }
}

/// The end of an add after its listeners were told.
pub open spec fn add_after_emit(result: StepResult) -> AddDocumentStep {
    match result {
        Ok(()) => AddDocumentStep::Done(Ok(())),
        Err(e) => AddDocumentStep::Done(Err(AddDocumentError::Other(e))),
    }
}

/// The step of an add after its insert.
pub fn add_document_after_insert(result: Result<Document, RepositoryError>) -> (r: AddDocumentStep)
    ensures
        r == add_after_insert(result),
{
    match result {
        Ok(document) => AddDocumentStep::IndexDocument { document },
        Err(RepositoryError::UniqueConstraintViolation) => AddDocumentStep::Done(
            Err(AddDocumentError::AlreadyExists),
        ),
        Err(RepositoryError::Database(text)) => AddDocumentStep::Done(
            Err(AddDocumentError::Other(text)),
        ),
        Err(RepositoryError::Sqlx(text)) => AddDocumentStep::Done(
            Err(AddDocumentError::Other(text)),
        ),
        Err(RepositoryError::Other(text)) => AddDocumentStep::Done(
            Err(AddDocumentError::Other(text)),
        ),
    }
}

/// The step of an add after its index write.
pub fn add_document_after_index(document: Document, result: StepResult) -> (r: AddDocumentStep)
    ensures
        r == add_after_index(document, result),
{
    match result {
        Ok(()) => AddDocumentStep::SetIndexedAt { document },
        Err(index_error) => AddDocumentStep::DeleteRow { index_error },
    }
}

/// The step of an add after the row's time of indexing was set, which
/// brings back the row as it then is. The listeners are told of that
/// row. A row that is gone, or a table that fails, ends the add with an
/// error.
pub fn add_document_after_indexed_at(result: Result<Option<Document>, String>) -> (r:
    AddDocumentStep)
    ensures
        match result {
            Ok(Some(document)) => r == (AddDocumentStep::Emit {
                event: DocumentEvent::DocumentAdded(document),
            }),
            Ok(None) => (r matches AddDocumentStep::Done(Err(AddDocumentError::Other(text)))
                && text@ == row_gone_text()),
            Err(e) => r == AddDocumentStep::Done(Err(AddDocumentError::Other(e))),
        },
{
    match result {
        Ok(Some(document)) => AddDocumentStep::Emit {
            event: DocumentEvent::DocumentAdded(document),
        },
        Ok(None) => AddDocumentStep::Done(
            Err(AddDocumentError::Other("the document does not exist".to_owned())),
        ),
        Err(e) => AddDocumentStep::Done(Err(AddDocumentError::Other(e))),
    }
}

/// The end of an add after the row was taken out again.
pub fn add_document_after_compensation(index_error: String, result: StepResult) -> (r:
    AddDocumentStep)
    ensures
        r == add_after_compensation(index_error, result),
        r is Done,
        r->Done_0 is Err,
{
    match result {
        Ok(()) => AddDocumentStep::Done(Err(AddDocumentError::Other(index_error))),
        Err(delete_error) => AddDocumentStep::Done(Err(AddDocumentError::Other(delete_error))),
    }
}

/// The end of an add after its listeners were told.
pub fn add_document_after_emit(result: StepResult) -> (r: AddDocumentStep)
    ensures
        r == add_after_emit(result),
{
    match result {
        Ok(()) => AddDocumentStep::Done(Ok(())),
        Err(e) => AddDocumentStep::Done(Err(AddDocumentError::Other(e))),
    }
}

/// The step after the lookup of the watch that holds a path.
pub fn after_watch_lookup(found: Option<WatchId>) -> (r: WatchLookupStep)
    ensures
        r == match found {
            Some(watch_id) => WatchLookupStep::Proceed { watch_id },
            None => WatchLookupStep::NoWatchFound,
        },
{
    match found {
        Some(watch_id) => WatchLookupStep::Proceed { watch_id },
        None => WatchLookupStep::NoWatchFound,
    }
}

/// The step after the old entry of a refresh was deleted from the index.
/// A refresh starts with that deletion.
pub open spec fn update_after_index_delete(result: StepResult) -> UpdateDocumentStep {
    match result {
        Ok(()) => UpdateDocumentStep::IndexDocument,
        Err(e) => UpdateDocumentStep::Done(Err(UpdateDocumentError::Other(e))),
    }
}

/// The step after the index write of a refresh.
pub open spec fn update_after_index(result: StepResult) -> UpdateDocumentStep {
    match result {
        Ok(()) => UpdateDocumentStep::UpdateRow,
        Err(e) => UpdateDocumentStep::Done(Err(UpdateDocumentError::Other(e))),
    }
}

/// The step after the row of a refresh was updated: a path without a row
/// ends the refresh with `NotExists`.
pub open spec fn update_after_row(result: Result<Option<Document>, String>) -> UpdateDocumentStep {
    match result {
        Ok(Some(document)) => UpdateDocumentStep::Emit {
            event: DocumentEvent::DocumentUpdated(document),
        },
        Ok(None) => UpdateDocumentStep::Done(Err(UpdateDocumentError::NotExists)),
        Err(e) => UpdateDocumentStep::Done(Err(UpdateDocumentError::Other(e))),
    }
}

/// The end of a refresh after its listeners were told.
pub open spec fn update_after_emit(result: StepResult) -> UpdateDocumentStep {
    match result {
        Ok(()) => UpdateDocumentStep::Done(Ok(())),
        Err(e) => UpdateDocumentStep::Done(Err(UpdateDocumentError::Other(e))),
    }
}

/// The step of a refresh after the old entry was deleted from the index.
pub fn update_document_after_index_delete(result: StepResult) -> (r: UpdateDocumentStep)
    ensures
        r == update_after_index_delete(result),
{
    match result {
        Ok(()) => UpdateDocumentStep::IndexDocument,
        Err(e) => UpdateDocumentStep::Done(Err(UpdateDocumentError::Other(e))),
    }
}

/// The step of a refresh after its index write.
pub fn update_document_after_index(result: StepResult) -> (r: UpdateDocumentStep)
    ensures
        r == update_after_index(result),
{
    match result {
        Ok(()) => UpdateDocumentStep::UpdateRow,
        Err(e) => UpdateDocumentStep::Done(Err(UpdateDocumentError::Other(e))),
    }
}

/// The step of a refresh after its row was updated.
pub fn update_document_after_row(result: Result<Option<Document>, String>) -> (r:
    UpdateDocumentStep)
    ensures
        r == update_after_row(result),
{
    match result {
        Ok(Some(document)) => UpdateDocumentStep::Emit {
            event: DocumentEvent::DocumentUpdated(document),
        },
        Ok(None) => UpdateDocumentStep::Done(Err(UpdateDocumentError::NotExists)),
        Err(e) => UpdateDocumentStep::Done(Err(UpdateDocumentError::Other(e))),
    }
}

/// The end of a refresh after its listeners were told.
pub fn update_document_after_emit(result: StepResult) -> (r: UpdateDocumentStep)
    ensures
        r == update_after_emit(result),
{
    match result {
        Ok(()) => UpdateDocumentStep::Done(Ok(())),
        Err(e) => UpdateDocumentStep::Done(Err(UpdateDocumentError::Other(e))),
    }
}

/// The step after the row of a deletion was deleted. A deletion starts
/// with the row; a path without a row ends it with `NotExists`, and the
/// index is not touched.
pub open spec fn delete_after_row(result: Result<Option<Document>, String>) -> DeleteDocumentStep {
    match result {
        Ok(Some(document)) => DeleteDocumentStep::DeleteFromIndex { document },
        Ok(None) => DeleteDocumentStep::Done(Err(DeleteDocumentError::NotExists)),
        Err(e) => DeleteDocumentStep::Done(Err(DeleteDocumentError::Other(e))),
    }
}

/// The step after the path of a deletion was deleted from the index.
pub open spec fn delete_after_index(document: Document, result: StepResult) -> DeleteDocumentStep {
    match result {
        Ok(()) => DeleteDocumentStep::Emit { event: DocumentEvent::DocumentDeleted(document) },
        Err(e) => DeleteDocumentStep::Done(Err(DeleteDocumentError::Other(e))),
    }
}

/// The end of a deletion after its listeners were told.
pub open spec fn delete_after_emit(result: StepResult) -> DeleteDocumentStep {
    match result {
        Ok(()) => DeleteDocumentStep::Done(Ok(())),
        Err(e) => DeleteDocumentStep::Done(Err(DeleteDocumentError::Other(e))),
    }
}

/// The step of a deletion after its row was deleted.
pub fn delete_document_after_row(result: Result<Option<Document>, String>) -> (r:
    DeleteDocumentStep)
    ensures
        r == delete_after_row(result),
{
    match result {
        Ok(Some(document)) => DeleteDocumentStep::DeleteFromIndex { document },
        Ok(None) => DeleteDocumentStep::Done(Err(DeleteDocumentError::NotExists)),
        Err(e) => DeleteDocumentStep::Done(Err(DeleteDocumentError::Other(e))),
    }
}

/// The step of a deletion after the path was deleted from the index.
pub fn delete_document_after_index(document: Document, result: StepResult) -> (r:
    DeleteDocumentStep)
    ensures
        r == delete_after_index(document, result),
{
    match result {
        Ok(()) => DeleteDocumentStep::Emit { event: DocumentEvent::DocumentDeleted(document) },
        Err(e) => DeleteDocumentStep::Done(Err(DeleteDocumentError::Other(e))),
    }
}

/// The end of a deletion after its listeners were told.
pub fn delete_document_after_emit(result: StepResult) -> (r: DeleteDocumentStep)
    ensures
        r == delete_after_emit(result),
{
    match result {
        Ok(()) => DeleteDocumentStep::Done(Ok(())),
        Err(e) => DeleteDocumentStep::Done(Err(DeleteDocumentError::Other(e))),
    }
}

/// What the caller does when all documents of a watch go.
#[derive(Debug, PartialEq, Eq)]
pub enum DeleteByWatchStep {
    /// Delete the watch's entries from the index.
    DeleteFromIndex,
    /// The operation has ended.
    Done(StepResult),
}

/// The step after the rows of a watch were deleted from the table, with
/// which the operation starts: the index is touched only when the table
/// obeyed. Listeners are told nothing.
pub fn delete_by_watch_after_rows(result: StepResult) -> (r: DeleteByWatchStep)
    ensures
        r == match result {
            Ok(()) => DeleteByWatchStep::DeleteFromIndex,
            Err(e) => DeleteByWatchStep::Done(Err(e)),
        },
{
    match result {
        Ok(()) => DeleteByWatchStep::DeleteFromIndex,
        Err(e) => DeleteByWatchStep::Done(Err(e)),
    }
}

/// The command with which an add starts: the row is inserted under the
/// watch, without a time of indexing.
pub fn add_document_start(path: &str, watch_id: WatchId) -> (r: Command)
    ensures
        r matches Command::Insert { watch_id: w, path: p, indexed_at: at } && w == watch_id && p@
            == path@ && at is None,
{
    Command::Insert { watch_id, path: String::from_str(path), indexed_at: None }
}

/// The command that sets the time of indexing of the row of `path` to
/// `now`: the step `SetIndexedAt` of an add and the step `UpdateRow` of
/// a refresh.
pub fn set_indexed_at(path: &str, now: Timestamp) -> (r: Command)
    ensures
        r matches Command::UpdateByPath { path: p, indexed_at: at } && p@ == path@ && at == now,
{
    Command::UpdateByPath { path: String::from_str(path), indexed_at: now }
}

/// The command with which a refresh starts: the old entry of the path is
/// deleted from the index.
pub fn update_document_start(path: &str) -> (r: IndexWriterCommand)
    ensures
        r matches IndexWriterCommand::DeleteByPath { path: p } && p@ == path@,
{
    IndexWriterCommand::DeleteByPath { path: String::from_str(path) }
}

/// The command with which a deletion starts, and with which the row of a
/// failed add is taken out again: the row of the path is deleted from
/// the table.
pub fn delete_document_start(path: &str) -> (r: Command)
    ensures
        r matches Command::DeleteByPath { path: p } && p@ == path@,
{
    Command::DeleteByPath { path: String::from_str(path) }
}

/// The command that deletes the path from the index: the second step of
/// a deletion.
pub fn delete_from_index(path: &str) -> (r: IndexWriterCommand)
    ensures
        r matches IndexWriterCommand::DeleteByPath { path: p } && p@ == path@,
{
    IndexWriterCommand::DeleteByPath { path: String::from_str(path) }
}

/// The command with which the deletion of all documents of a watch
/// starts: the rows of the watch are deleted from the table.
pub fn delete_documents_by_watch_id_start(watch_id: WatchId) -> (r: Command)
    ensures
        r == (Command::DeleteByWatchId { watch_id }),
{
    Command::DeleteByWatchId { watch_id }
}

/// The command that deletes the entries of a watch from the index: the
/// second step of the deletion of all its documents.
pub fn delete_by_watch_from_index(watch_id: WatchId) -> (r: IndexWriterCommand)
    ensures
        r == (IndexWriterCommand::DeleteByWatchId { watch_id }),
{
    IndexWriterCommand::DeleteByWatchId { watch_id }
}

} // verus!
