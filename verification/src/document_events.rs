//! What the document service tells its listeners.

use crate::documents::Document;
use vstd::prelude::*;

verus! {

/// The number of events that the channel to the listeners holds.
pub const CHANNEL_CAPACITY: usize = 100;

/// A change to one document. Nothing is told when all documents of a
/// watch are deleted at once.
#[derive(Debug, PartialEq, Eq)]
pub enum DocumentEvent {
    DocumentAdded(Document),
    DocumentUpdated(Document),
    DocumentDeleted(Document),
}

impl Clone for DocumentEvent {
    fn clone(&self) -> (r: Self)
        ensures
            r == *self,
    {
        match self {
            DocumentEvent::DocumentAdded(d) => DocumentEvent::DocumentAdded(d.clone()),
            DocumentEvent::DocumentUpdated(d) => DocumentEvent::DocumentUpdated(d.clone()),
            DocumentEvent::DocumentDeleted(d) => DocumentEvent::DocumentDeleted(d.clone()),
        }
    }
}

} // verus!
