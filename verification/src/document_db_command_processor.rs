//! The single writer of the table of documents.
//!
//! Commands reach the writer through one mailbox and are carried out one
//! at a time, in the order in which they came. Each command becomes one
//! or two statements against the table; every statement names a path by
//! its key.

use crate::document_service::RepositoryError;
use crate::path_string_normalization::nfc_of;
use crate::path_string_normalization::normalize_string;
use crate::text::same_text;
use crate::time::Timestamp;
use crate::watches::WatchId;
use vstd::prelude::*;

verus! {

/// The number of commands that the writer's mailbox holds.
pub const MAILBOX_CAPACITY: usize = 100_000;

/// What the writer is asked to do.
#[allow(inconsistent_fields)]
#[derive(Debug, PartialEq, Eq)]
pub enum Command {
    Insert { watch_id: WatchId, path: String, indexed_at: Option<Timestamp> },
    UpdateByPath { path: String, indexed_at: Timestamp },
    DeleteByPath { path: String },
    DeleteByWatchId { watch_id: WatchId },
    FindByPath { path: String },
}

/// One statement against the table.
#[allow(inconsistent_fields)]
#[derive(Debug, PartialEq, Eq)]
pub enum Statement {
    InsertRow { key: String, watch_id: WatchId, indexed_at: Option<Timestamp> },
    UpdateIndexedAt { key: String, indexed_at: Timestamp },
    DeleteRow { key: String },
    DeleteRowsOfWatch { watch_id: WatchId },
    SelectRow { key: String },
}

/// A statement as contracts speak of it.
#[allow(inconsistent_fields)]
pub enum StatementView {
    InsertRow { key: Seq<char>, watch_id: WatchId, indexed_at: Option<Timestamp> },
    UpdateIndexedAt { key: Seq<char>, indexed_at: Timestamp },
    DeleteRow { key: Seq<char> },
    DeleteRowsOfWatch { watch_id: WatchId },
    SelectRow { key: Seq<char> },
}

impl View for Statement {
    type V = StatementView;

    open spec fn view(&self) -> StatementView {
        match *self {
            Statement::InsertRow { key, watch_id, indexed_at } => StatementView::InsertRow {
                key: key@,
                watch_id,
                indexed_at,
            },
            Statement::UpdateIndexedAt { key, indexed_at } => StatementView::UpdateIndexedAt {
                key: key@,
                indexed_at,
            },
            Statement::DeleteRow { key } => StatementView::DeleteRow { key: key@ },
            Statement::DeleteRowsOfWatch { watch_id } => StatementView::DeleteRowsOfWatch {
                watch_id,
            },
            Statement::SelectRow { key } => StatementView::SelectRow { key: key@ },
        }
    }
}

/// The statement with which `command` starts. A deletion by path starts
/// by looking the row up, so that it can hand the deleted row back.
pub open spec fn first_of_command(command: Command) -> StatementView {
    match command {
        Command::Insert { watch_id, path, indexed_at } => StatementView::InsertRow {
            key: nfc_of(path@),
            watch_id,
            indexed_at,
        },
        Command::UpdateByPath { path, indexed_at } => StatementView::UpdateIndexedAt {
            key: nfc_of(path@),
            indexed_at,
        },
        Command::DeleteByPath { path } => StatementView::SelectRow { key: nfc_of(path@) },
        Command::DeleteByWatchId { watch_id } => StatementView::DeleteRowsOfWatch { watch_id },
        Command::FindByPath { path } => StatementView::SelectRow { key: nfc_of(path@) },
    }
}

/// The statement that follows the first one, if one does. An insert and
/// an update read the row back. A deletion by path deletes the row that
/// the lookup found, and does nothing where it found none.
pub open spec fn second_of_command(command: Command, row_found: bool) -> Option<StatementView> {
    match command {
        Command::Insert { watch_id, path, indexed_at } => Some(
            StatementView::SelectRow { key: nfc_of(path@) },
        ),
        Command::UpdateByPath { path, indexed_at } => Some(
            StatementView::SelectRow { key: nfc_of(path@) },
        ),
        Command::DeleteByPath { path } => if row_found {
            Some(StatementView::DeleteRow { key: nfc_of(path@) })
        } else {
            None
        },
        Command::DeleteByWatchId { watch_id } => None,
        Command::FindByPath { path } => None,
    }
}

/// The statement with which `command` starts.
pub fn first_statement(command: &Command) -> (r: Statement)
    ensures
        r@ == first_of_command(*command),
{
    match command {
        Command::Insert { watch_id, path, indexed_at } => Statement::InsertRow {
            key: normalize_string(path.as_str()),
            watch_id: *watch_id,
            indexed_at: *indexed_at,
        },
        Command::UpdateByPath { path, indexed_at } => Statement::UpdateIndexedAt {
            key: normalize_string(path.as_str()),
            indexed_at: *indexed_at,
        },
        Command::DeleteByPath { path } => Statement::SelectRow {
            key: normalize_string(path.as_str()),
        },
        Command::DeleteByWatchId { watch_id } => Statement::DeleteRowsOfWatch {
            watch_id: *watch_id,
        },
        Command::FindByPath { path } => Statement::SelectRow {
            key: normalize_string(path.as_str()),
        },
    }
}

/// The statement that follows the first one of `command`, given whether
/// the first one found a row.
pub fn second_statement(command: &Command, row_found: bool) -> (r: Option<Statement>)
    ensures
        match r {
            Some(statement) => second_of_command(*command, row_found) == Some(statement@),
            None => second_of_command(*command, row_found) is None,
        },
{
    match command {
        Command::Insert { watch_id, path, indexed_at } => Some(
            Statement::SelectRow { key: normalize_string(path.as_str()) },
        ),
        Command::UpdateByPath { path, indexed_at } => Some(
            Statement::SelectRow { key: normalize_string(path.as_str()) },
        ),
        Command::DeleteByPath { path } => {
            if row_found {
                Some(Statement::DeleteRow { key: normalize_string(path.as_str()) })
            } else {
                None
            }
        },
        Command::DeleteByWatchId { watch_id } => None,
        Command::FindByPath { path } => None,
    }
}

/// How an insert failed.
#[derive(Debug, PartialEq, Eq)]
pub enum InsertFailure {
    /// The database refused the statement, with an extended result code
    /// where it gave one.
    Database { code: Option<String>, message: String },
    /// The statement did not reach the database, or its answer did not
    /// come back.
    Other { message: String },
}

/// The extended result code of a violated unique constraint.
pub open spec fn unique_violation_code() -> Seq<char> {
    "2067"@
}

/// The error of an insert that failed with `failure`: a violated unique
/// constraint is told apart from every other failure of the database.
pub fn classify_insert_failure(failure: InsertFailure) -> (r: RepositoryError)
    ensures
        r == match failure {
            InsertFailure::Database { code, message } => if code is Some && code->0@
                == unique_violation_code() {
                RepositoryError::UniqueConstraintViolation
            } else {
                RepositoryError::Database(message)
            },
            InsertFailure::Other { message } => RepositoryError::Sqlx(message),
        },
{
    match failure {
        InsertFailure::Database { code, message } => {
            let unique = match &code {
                Some(code) => same_text(code.as_str(), "2067"),
                None => false,
            };
            if unique {
                RepositoryError::UniqueConstraintViolation
            } else {
                RepositoryError::Database(message)
            }
        },
        InsertFailure::Other { message } => RepositoryError::Sqlx(message),
    }
}

} // verus!
