//! What follows from a change on disk.
//!
//! A created file is added, a modified one refreshed, a removed one
//! deleted. After an operation that succeeded the index is committed.
//! An operation that failed is passed over in silence, logged as a
//! warning or logged as an error, by the kind of its failure.

use crate::document_service::AddDocumentError;
use crate::document_service::DeleteDocumentError;
use crate::document_service::UpdateDocumentError;
use crate::watches::FileWatcherEvent;
use vstd::prelude::*;

verus! {

/// The operation that a change on disk asks for.
#[derive(Clone, Copy, Debug, PartialEq, Eq, Structural)]
pub enum HandlerAction {
    AddDocument,
    UpdateDocument,
    DeleteDocument,
}

/// What the handler does once the operation has ended.
#[derive(Clone, Copy, Debug, PartialEq, Eq, Structural)]
pub enum Reaction {
    /// Commit the index.
    Commit,
    /// Nothing.
    Ignore,
    /// Log a warning.
    Warn,
    /// Log an error.
    LogError,
}

/// The operation that `event` asks for.
pub fn action_for(event: &FileWatcherEvent) -> (r: HandlerAction)
    ensures
        r == match *event {
            FileWatcherEvent::Created(_) => HandlerAction::AddDocument,
            FileWatcherEvent::Modified(_) => HandlerAction::UpdateDocument,
            FileWatcherEvent::Removed(_) => HandlerAction::DeleteDocument,
        },
{
    match event {
        FileWatcherEvent::Created(_) => HandlerAction::AddDocument,
        FileWatcherEvent::Modified(_) => HandlerAction::UpdateDocument,
        FileWatcherEvent::Removed(_) => HandlerAction::DeleteDocument,
    }
}

/// What the handler does after an add.
pub fn after_add(result: &Result<(), AddDocumentError>) -> (r: Reaction)
    ensures
        r == match *result {
            Ok(()) => Reaction::Commit,
            Err(AddDocumentError::Other(_)) => Reaction::LogError,
            Err(_) => Reaction::Ignore,
        },
{
    match result {
        Ok(()) => Reaction::Commit,
        Err(AddDocumentError::Other(_)) => Reaction::LogError,
        Err(_) => Reaction::Ignore,
    }
}

/// What the handler does after a refresh.
pub fn after_update(result: &Result<(), UpdateDocumentError>) -> (r: Reaction)
    ensures
        r == match *result {
            Ok(()) => Reaction::Commit,
            Err(UpdateDocumentError::NotExists) => Reaction::Warn,
            Err(UpdateDocumentError::Other(_)) => Reaction::LogError,
            Err(_) => Reaction::Ignore,
        },
{
    match result {
        Ok(()) => Reaction::Commit,
        Err(UpdateDocumentError::NotExists) => Reaction::Warn,
        Err(UpdateDocumentError::Other(_)) => Reaction::LogError,
        Err(_) => Reaction::Ignore,
    }
}

/// What the handler does after a deletion.
pub fn after_delete(result: &Result<(), DeleteDocumentError>) -> (r: Reaction)
    ensures
        r == match *result {
            Ok(()) => Reaction::Commit,
            Err(DeleteDocumentError::NotExists) => Reaction::Ignore,
            Err(DeleteDocumentError::Other(_)) => Reaction::LogError,
        },
{
    match result {
        Ok(()) => Reaction::Commit,
        Err(DeleteDocumentError::NotExists) => Reaction::Ignore,
        Err(DeleteDocumentError::Other(_)) => Reaction::LogError,
    }
}

/// Whether the handler takes the next event: it ends when a connection to
/// the store could not be had or a commit failed, and at nothing else.
pub fn takes_next_event(connected: bool, reaction: Reaction, commit_ok: bool) -> (r: bool)
    ensures
        r == (connected && (reaction == Reaction::Commit ==> commit_ok)),
{
    connected && match reaction {
        Reaction::Commit => commit_ok,
        _ => true,
    }
}

} // verus!
