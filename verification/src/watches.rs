//! Watches: the directories that the user has asked to have indexed.

use crate::text::same_text;
use crate::time::Timestamp;
use vstd::prelude::*;

verus! {

/// The identifier of a watch, assigned by the store.
#[derive(Clone, Copy, Debug, PartialEq, Eq, Hash, Structural)]
pub struct WatchId(pub i64);

/// Where a watch stands in its life.
#[derive(Clone, Copy, Debug, PartialEq, Eq, Structural)]
pub enum WatchStatus {
    /// Its first scan has finished.
    Active,
    /// It was registered and its first scan has not finished.
    Adding,
    /// Its deletion was requested.
    Deleting,
}

/// The status that the store writes as `name`.
pub open spec fn watch_status_named(name: Seq<char>) -> Option<WatchStatus> {
    if name == "active"@ {
        Some(WatchStatus::Active)
    } else if name == "adding"@ {
        Some(WatchStatus::Adding)
    } else if name == "deleting"@ {
        Some(WatchStatus::Deleting)
    } else {
        None
    }
}

impl WatchStatus {
    /// The name under which the store writes the status.
    pub open spec fn name(self) -> Seq<char> {
        match self {
            WatchStatus::Active => "active"@,
            WatchStatus::Adding => "adding"@,
            WatchStatus::Deleting => "deleting"@,
        }
    }

    /// Reads a status from the name under which the store writes it.
    pub fn from_str(s: &str) -> (r: Result<WatchStatus, ()>)
        ensures
            r == match watch_status_named(s@) {
                Some(status) => Ok::<WatchStatus, ()>(status),
                None => Err::<WatchStatus, ()>(()),
            },
    {
        if same_text(s, "active") {
            Ok(WatchStatus::Active)
        } else if same_text(s, "adding") {
            Ok(WatchStatus::Adding)
        } else if same_text(s, "deleting") {
            Ok(WatchStatus::Deleting)
        } else {
            Err(())
        }
    }

    /// The name under which the store writes the status. Reading that
    /// name gives the status back.
    pub fn as_str(&self) -> (r: &'static str)
        ensures
            r@ == self.name(),
            watch_status_named(r@) == Some(*self),
    {
        proof {
            reveal_strlit("active");
            reveal_strlit("adding");
            reveal_strlit("deleting");
            assert("active"@[1] == 'c' && "adding"@[1] == 'd');
        }
        match self {
            WatchStatus::Active => "active",
            WatchStatus::Adding => "adding",
            WatchStatus::Deleting => "deleting",
        }
    }
}

/// A registered root directory.
#[derive(Debug, PartialEq, Eq)]
pub struct Watch {
    pub id: WatchId,
    /// The directory: absolute and in Normalization Form C.
    pub path: String,
    pub status: WatchStatus,
    pub created_at: Timestamp,
}

impl Clone for Watch {
    fn clone(&self) -> (r: Self)
        ensures
            r == *self,
    {
        Watch {
            id: self.id,
            path: self.path.clone(),
            status: self.status,
            created_at: self.created_at,
        }
    }
}

impl Watch {
    /// The same watch with the status `status`.
    pub open spec fn with_status(self, status: WatchStatus) -> Watch {
        Watch { id: self.id, path: self.path, status, created_at: self.created_at }
    }

    /// The same watch, active.
    pub fn active(&self) -> (r: Self)
        ensures
            r == self.with_status(WatchStatus::Active),
    {
        Watch {
            id: self.id,
            path: self.path.clone(),
            status: WatchStatus::Active,
            created_at: self.created_at,
        }
    }

    /// The same watch, about to be deleted.
    pub fn deleting(&self) -> (r: Self)
        ensures
            r == self.with_status(WatchStatus::Deleting),
    {
        Watch {
            id: self.id,
            path: self.path.clone(),
            status: WatchStatus::Deleting,
            created_at: self.created_at,
        }
    }

    /// The watch that the store's row describes. The row's status must be
    /// one of the names that the store writes.
    pub fn from_row(id: i64, path: String, status: &str, created_at: Timestamp) -> (r: Self)
        requires
            watch_status_named(status@) is Some,
        ensures
            r == (Watch {
                id: WatchId(id),
                path,
                status: watch_status_named(status@)->0,
                created_at,
            }),
    {
        let status = match WatchStatus::from_str(status) {
            Ok(status) => status,
            Err(_) => WatchStatus::Active,
        };
        Watch { id: WatchId(id), path, status, created_at }
    }
}

/// A watch together with the number of its indexed documents.
#[derive(Debug, PartialEq, Eq)]
pub struct WatchFull {
    pub id: WatchId,
    pub path: String,
    pub status: WatchStatus,
    pub created_at: Timestamp,
    pub document_count: u32,
}

impl Clone for WatchFull {
    fn clone(&self) -> (r: Self)
        ensures
            r == *self,
    {
        WatchFull {
            id: self.id,
            path: self.path.clone(),
            status: self.status,
            created_at: self.created_at,
            document_count: self.document_count,
        }
    }
}

impl WatchFull {
    /// `watch` with its number of documents.
    pub fn from_watch(watch: Watch, document_count: u32) -> (r: Self)
        ensures
            r == (WatchFull {
                id: watch.id,
                path: watch.path,
                status: watch.status,
                created_at: watch.created_at,
                document_count,
            }),
    {
        WatchFull {
            id: watch.id,
            path: watch.path,
            status: watch.status,
            created_at: watch.created_at,
            document_count,
        }
    }
}

/// A change on disk, in the library's own words.
#[derive(Debug, PartialEq, Eq)]
pub enum FileWatcherEvent {
    Created(String),
    Modified(String),
    Removed(String),
}

impl Clone for FileWatcherEvent {
    fn clone(&self) -> (r: Self)
        ensures
            r == *self,
    {
        match self {
            FileWatcherEvent::Created(path) => FileWatcherEvent::Created(path.clone()),
            FileWatcherEvent::Modified(path) => FileWatcherEvent::Modified(path.clone()),
            FileWatcherEvent::Removed(path) => FileWatcherEvent::Removed(path.clone()),
        }
    }
}

impl FileWatcherEvent {
    /// The path that the event is about.
    pub open spec fn path(self) -> String {
        match self {
            FileWatcherEvent::Created(path) => path,
            FileWatcherEvent::Modified(path) => path,
            FileWatcherEvent::Removed(path) => path,
        }
    }

    /// The path that the event is about.
    pub fn get_first_path(&self) -> (r: &str)
        ensures
            r@ == self.path()@,
    {
        match self {
            FileWatcherEvent::Created(path) => path.as_str(),
            FileWatcherEvent::Modified(path) => path.as_str(),
            FileWatcherEvent::Removed(path) => path.as_str(),
        }
    }
}

} // verus!
