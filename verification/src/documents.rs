//! Documents: the Markdown files that the system knows.

use crate::time::Timestamp;
use crate::watches::WatchId;
use vstd::prelude::*;

verus! {

/// The identifier of a document, assigned by the store.
#[derive(Clone, Copy, Debug, PartialEq, Eq, Hash, Structural)]
pub struct DocumentId(pub i64);

/// A Markdown file known to the system.
#[derive(Debug, PartialEq, Eq)]
pub struct Document {
    pub id: DocumentId,
    /// The file: absolute and in Normalization Form C.
    pub path: String,
    /// The watch that owns the document.
    pub watch_id: WatchId,
    pub created_at: Timestamp,
    /// When the file was last written to the index, if ever.
    pub indexed_at: Option<Timestamp>,
}

impl Clone for Document {
    fn clone(&self) -> (r: Self)
        ensures
            r == *self,
    {
        Document {
            id: self.id,
            path: self.path.clone(),
            watch_id: self.watch_id,
            created_at: self.created_at,
            indexed_at: self.indexed_at,
        }
    }
}

impl Document {
    /// The document that the store's row describes.
    pub fn from_row(
        id: i64,
        path: String,
        watch_id: i64,
        created_at: Timestamp,
        indexed_at: Option<Timestamp>,
    ) -> (r: Self)
        ensures
            r == (Document {
                id: DocumentId(id),
                path,
                watch_id: WatchId(watch_id),
                created_at,
                indexed_at,
            }),
    {
        Document { id: DocumentId(id), path, watch_id: WatchId(watch_id), created_at, indexed_at }
    }
}

} // verus!
