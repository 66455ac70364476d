//! From the operating system's notifications to the library's events.
//!
//! A notification names a kind of change and the paths it touched. Only a
//! few kinds say something about a document, and only of a path that the
//! gatekeeper lets through:
//!
//! | notification                    | event                              |
//! |---------------------------------|------------------------------------|
//! | a file was created              | created, if eligible               |
//! | data or metadata were modified  | modified, if eligible              |
//! | a name changed, the path exists | created, if eligible               |
//! | a name changed, the path is gone| removed, if it was eligible        |
//! | a file was removed              | removed, if it was eligible        |
//! | anything else                   | none                               |

use crate::disk;
use crate::document_gatekeeper::DocumentGatekeeper;
use crate::package_dir::DirFacts;
use crate::watches::FileWatcherEvent;
use vstd::prelude::*;

verus! {

/// The number of events, of notifications and of operations that each of
/// the watcher's channels holds. A listener that falls further behind
/// misses events.
pub const CHANNEL_CAPACITY: usize = 100;

/// What was created.
#[derive(Clone, Copy, Debug, PartialEq, Eq, Structural)]
pub enum CreateKind {
    Any,
    File,
    Folder,
    Other,
}

/// Which side of a renaming a notification speaks of.
#[derive(Clone, Copy, Debug, PartialEq, Eq, Structural)]
pub enum RenameMode {
    Any,
    To,
    From,
    Both,
    Other,
}

/// What was modified.
#[derive(Clone, Copy, Debug, PartialEq, Eq, Structural)]
pub enum ModifyKind {
    Any,
    Data,
    Metadata,
    Name(RenameMode),
    Other,
}

/// What was removed.
#[derive(Clone, Copy, Debug, PartialEq, Eq, Structural)]
pub enum RemoveKind {
    Any,
    File,
    Folder,
    Other,
}

/// The kind of change that a notification names.
#[derive(Clone, Copy, Debug, PartialEq, Eq, Structural)]
pub enum EventKind {
    Any,
    Access,
    Create(CreateKind),
    Modify(ModifyKind),
    Remove(RemoveKind),
    Other,
}

/// A notification as the operating system gave it.
#[derive(Debug, PartialEq, Eq)]
pub struct RawEvent {
    pub kind: EventKind,
    pub paths: Vec<String>,
}

/// What the watcher is asked to do.
#[derive(Debug, PartialEq, Eq)]
pub enum Operation {
    WatchDirectory(String),
    UnwatchDirectory(String),
}

/// What is known of the first path of a notification when it is
/// converted.
#[derive(Clone, Copy, Debug, PartialEq, Eq, Structural)]
pub struct PathProbe {
    /// Something stands at the path.
    pub present: bool,
    /// The gatekeeper lets the path through as the file it is.
    pub eligible: bool,
    /// The gatekeeper would let the path through, were it a file.
    pub eligible_if_file_exists: bool,
}

/// A notification of this kind is read by its first path, whatever the
/// number of its paths.
pub open spec fn reads_first_path(kind: EventKind) -> bool {
    kind == EventKind::Create(CreateKind::File) || kind == EventKind::Modify(ModifyKind::Data)
        || kind == EventKind::Modify(ModifyKind::Metadata) || kind == EventKind::Remove(
        RemoveKind::File,
    )
}

/// Whether a notification of the kind `kind` is read by its first path,
/// whatever the number of its paths.
pub fn is_read_by_first_path(kind: EventKind) -> (r: bool)
    ensures
        r == reads_first_path(kind),
{
    match kind {
        EventKind::Create(CreateKind::File) => true,
        EventKind::Modify(ModifyKind::Data) => true,
        EventKind::Modify(ModifyKind::Metadata) => true,
        EventKind::Remove(RemoveKind::File) => true,
        _ => false,
    }
}

/// The event that the notification `event` stands for, given what is
/// known of its first path.
pub open spec fn converted(event: RawEvent, probe: PathProbe) -> Option<FileWatcherEvent> {
    match event.kind {
        EventKind::Create(CreateKind::File) => if probe.eligible {
            Some(FileWatcherEvent::Created(event.paths@[0]))
        } else {
            None
        },
        EventKind::Modify(ModifyKind::Data) | EventKind::Modify(ModifyKind::Metadata) => if probe.eligible {
            Some(FileWatcherEvent::Modified(event.paths@[0]))
        } else {
            None
        },
        EventKind::Modify(ModifyKind::Name(RenameMode::Any)) => if event.paths@.len() != 1 {
            None
        } else if probe.present {
            if probe.eligible {
                Some(FileWatcherEvent::Created(event.paths@[0]))
            } else {
                None
            }
        } else if probe.eligible_if_file_exists {
            Some(FileWatcherEvent::Removed(event.paths@[0]))
        } else {
            None
        },
        EventKind::Remove(RemoveKind::File) => if probe.eligible_if_file_exists {
            Some(FileWatcherEvent::Removed(event.paths@[0]))
        } else {
            None
        },
        _ => None,
    }
}

/// The event that the notification `event` stands for, given what is
/// known of its first path. A notification that is read by its first
/// path must name one.
pub fn convert_event_with(event: &RawEvent, probe: PathProbe) -> (r: Option<FileWatcherEvent>)
    requires
        reads_first_path(event.kind) ==> event.paths@.len() > 0,
    ensures
        r == converted(*event, probe),
{
    match event.kind {
        EventKind::Create(CreateKind::File) => {
            if probe.eligible {
                Some(FileWatcherEvent::Created(event.paths[0].clone()))
            } else {
                None
            }
        },
        EventKind::Modify(ModifyKind::Data) | EventKind::Modify(ModifyKind::Metadata) => {
            if probe.eligible {
                Some(FileWatcherEvent::Modified(event.paths[0].clone()))
            } else {
                None
            }
        },
        EventKind::Modify(ModifyKind::Name(RenameMode::Any)) => {
            if event.paths.len() != 1 {
                None
            } else if probe.present {
                if probe.eligible {
                    Some(FileWatcherEvent::Created(event.paths[0].clone()))
                } else {
                    None
                }
            } else if probe.eligible_if_file_exists {
                Some(FileWatcherEvent::Removed(event.paths[0].clone()))
            } else {
                None
            }
        },
        EventKind::Remove(RemoveKind::File) => {
            if probe.eligible_if_file_exists {
                Some(FileWatcherEvent::Removed(event.paths[0].clone()))
            } else {
                None
            }
        },
        _ => None,
    }
}

/// What the conversion of `event` comes to know of its first path, given
/// what the disk says of that path: whether anything stands there,
/// whether it is a regular file, and what stands around its ancestors.
/// Only what the kind of the notification asks for is looked at; the rest
/// is left as false.
pub open spec fn probed(
    gatekeeper: DocumentGatekeeper,
    event: RawEvent,
    present: bool,
    is_file: bool,
    facts: Seq<DirFacts>,
) -> PathProbe {
    let nothing = PathProbe { present: false, eligible: false, eligible_if_file_exists: false };
    if event.paths@.len() == 0 {
        nothing
    } else {
        let admitted = gatekeeper.admits(event.paths@[0]@, facts);
        match event.kind {
            EventKind::Create(CreateKind::File)
            | EventKind::Modify(ModifyKind::Data)
            | EventKind::Modify(ModifyKind::Metadata) => PathProbe {
                present: false,
                eligible: is_file && admitted,
                eligible_if_file_exists: false,
            },
            EventKind::Modify(ModifyKind::Name(RenameMode::Any)) => if event.paths@.len() != 1 {
                nothing
            } else if present {
                PathProbe {
                    present: true,
                    eligible: is_file && admitted,
                    eligible_if_file_exists: false,
                }
            } else {
                PathProbe { present: false, eligible: false, eligible_if_file_exists: admitted }
            },
            EventKind::Remove(RemoveKind::File) => PathProbe {
                present: false,
                eligible: false,
                eligible_if_file_exists: admitted,
            },
            _ => nothing,
        }
    }
}

/// Asks the disk and the gatekeeper what the conversion of `event` needs
/// to know of its first path; what it does not need is left as false.
/// The answer is that of `probed` for what the disk said.
pub fn probe_event(gatekeeper: &DocumentGatekeeper, event: &RawEvent) -> (r: PathProbe)
    ensures
        exists|present: bool, is_file: bool, facts: Seq<DirFacts>|
            r == #[trigger] probed(*gatekeeper, *event, present, is_file, facts),
        r.eligible ==> event.paths@.len() > 0 && exists|facts: Seq<DirFacts>| #[trigger]
            gatekeeper.admits(event.paths@[0]@, facts),
        r.eligible_if_file_exists ==> event.paths@.len() > 0 && exists|facts: Seq<DirFacts>| #[trigger]
            gatekeeper.admits(event.paths@[0]@, facts),
{
    let nothing = PathProbe { present: false, eligible: false, eligible_if_file_exists: false };
    let ghost no_facts = Seq::<DirFacts>::empty();
    if event.paths.len() == 0 {
        assert(nothing == probed(*gatekeeper, *event, false, false, no_facts));
        return nothing;
    }
    let path = event.paths[0].as_str();
    match event.kind {
        EventKind::Create(CreateKind::File)
        | EventKind::Modify(ModifyKind::Data)
        | EventKind::Modify(ModifyKind::Metadata) => {
            let eligible = gatekeeper.is_eligible(path);
            let probe = PathProbe { present: false, eligible, eligible_if_file_exists: false };
            proof {
                if eligible {
                    let facts = choose|facts: Seq<DirFacts>| #[trigger]
                        gatekeeper.admits(path@, facts);
                    assert(probe == probed(*gatekeeper, *event, false, true, facts));
                } else {
                    assert(probe == probed(*gatekeeper, *event, false, false, no_facts));
                }
            }
            probe
        },
        EventKind::Modify(ModifyKind::Name(RenameMode::Any)) => {
            if event.paths.len() != 1 {
                assert(nothing == probed(*gatekeeper, *event, false, false, no_facts));
                nothing
            } else if disk::is_present(path) {
                let eligible = gatekeeper.is_eligible(path);
                let probe = PathProbe { present: true, eligible, eligible_if_file_exists: false };
                proof {
                    if eligible {
                        let facts = choose|facts: Seq<DirFacts>| #[trigger]
                            gatekeeper.admits(path@, facts);
                        assert(probe == probed(*gatekeeper, *event, true, true, facts));
                    } else {
                        assert(probe == probed(*gatekeeper, *event, true, false, no_facts));
                    }
                }
                probe
            } else {
                let would_be = gatekeeper.is_eligible_if_file_exists(path);
                let probe = PathProbe {
                    present: false,
                    eligible: false,
                    eligible_if_file_exists: would_be,
                };
                proof {
                    let facts = choose|facts: Seq<DirFacts>|
                        would_be == #[trigger] gatekeeper.admits(path@, facts);
                    assert(probe == probed(*gatekeeper, *event, false, false, facts));
                }
                probe
            }
        },
        EventKind::Remove(RemoveKind::File) => {
            let would_be = gatekeeper.is_eligible_if_file_exists(path);
            let probe = PathProbe {
                present: false,
                eligible: false,
                eligible_if_file_exists: would_be,
            };
            proof {
                let facts = choose|facts: Seq<DirFacts>|
                    would_be == #[trigger] gatekeeper.admits(path@, facts);
                assert(probe == probed(*gatekeeper, *event, false, false, facts));
            }
            probe
        },
        _ => {
            assert(nothing == probed(*gatekeeper, *event, false, false, no_facts));
            nothing
        },
    }
}

/// The event that the notification `event` stands for. The answer is that
/// of `convert_event_with` for what the disk said; an event comes out
/// only for a path that the gatekeeper could let through. A notification
/// that is read by its first path must name one.
pub fn convert_event(gatekeeper: &DocumentGatekeeper, event: &RawEvent) -> (r: Option<
    FileWatcherEvent,
>)
    requires
        reads_first_path(event.kind) ==> event.paths@.len() > 0,
    ensures
        exists|probe: PathProbe| r == #[trigger] converted(*event, probe),
        r is Some ==> event.paths@.len() > 0 && r->0.path() == event.paths@[0] && exists|
            facts: Seq<DirFacts>,
        | #[trigger] gatekeeper.admits(event.paths@[0]@, facts),
{
    let probe = probe_event(gatekeeper, event);
    convert_event_with(event, probe)
}

} // verus!
