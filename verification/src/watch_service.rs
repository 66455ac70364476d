//! The watch service: what the user asks of the watches.
//!
//! No two watches share a path, and no watch lies inside another. A new
//! watch is checked against every watch that exists before anything is
//! written.

use crate::paths::child;
use crate::paths::components;
use crate::paths::is_name;
use crate::paths::lemma_child_components;
use crate::paths::is_parent_of;
use crate::paths::parts_begin_with;
use crate::paths::split_components;
use crate::paths::texts;
use crate::path_string_normalization::nfc_of;
use crate::path_string_normalization::normalize_string;
use crate::watch_state_sync::WatchEvent;
use crate::watches::Watch;
use crate::watches::WatchId;
use crate::watches::WatchStatus;
use vstd::prelude::*;

verus! {

/// Why a watch could not be added.
#[derive(Debug, PartialEq, Eq)]
pub enum AddWatchError {
    /// The path lies inside an existing watch, or an existing watch lies
    /// inside it.
    ParentChildRelationship,
    /// The path is an existing watch.
    WatchAlreadyExists,
    /// A store or a channel failed; the text says how.
    Other(String),
}

/// The two texts name the same path.
pub open spec fn same_path(a: Seq<char>, b: Seq<char>) -> bool {
    components(a) == components(b)
}

/// One of the two paths lies inside the other.
pub open spec fn related(a: Seq<char>, b: Seq<char>) -> bool {
    is_parent_of(components(a), components(b)) || is_parent_of(components(b), components(a))
}

/// Some watch of `watches` has the path `path`.
pub open spec fn exists_same(watches: Seq<Watch>, path: Seq<char>) -> bool {
    exists|i: int| 0 <= i < watches.len() && same_path((#[trigger] watches[i]).path@, path)
}

/// Some watch of `watches` lies inside `path`, or `path` inside it.
pub open spec fn exists_related(watches: Seq<Watch>, path: Seq<char>) -> bool {
    exists|i: int| 0 <= i < watches.len() && related((#[trigger] watches[i]).path@, path)
}

/// No two of the paths are the same path, and none lies inside another.
pub open spec fn apart(paths: Seq<Seq<char>>) -> bool {
    forall|i: int, j: int|
        0 <= i < paths.len() && 0 <= j < paths.len() && i != j ==> !same_path(paths[i], paths[j])
            && !is_parent_of(components(paths[i]), components(paths[j]))
}

/// The paths of `watches`.
pub open spec fn paths_of(watches: Seq<Watch>) -> Seq<Seq<char>> {
    Seq::new(watches.len(), |i: int| watches[i].path@)
}

/// Checks a new watch at `path` against the watches that exist. The
/// path is checked by its key, as it will be stored: a watch with the
/// same path refuses it as existing; else a watch inside it or around it
/// refuses it as related.
pub fn check_new_watch(path: &str, all_watches: &Vec<Watch>) -> (r: Result<(), AddWatchError>)
    ensures
        exists_same(all_watches@, nfc_of(path@)) ==> r is Err && r->Err_0 is WatchAlreadyExists,
        !exists_same(all_watches@, nfc_of(path@)) && exists_related(all_watches@, nfc_of(path@))
            ==> r is Err && r->Err_0 is ParentChildRelationship,
        !exists_same(all_watches@, nfc_of(path@)) && !exists_related(
            all_watches@,
            nfc_of(path@),
        ) ==> r is Ok,
{
    let key = normalize_string(path);
    let parts = split_components(key.as_str());
    let mut i: usize = 0;
    while i < all_watches.len()
        invariant
            i <= all_watches.len(),
            texts(parts@) == components(nfc_of(path@)),
            forall|j: int|
                0 <= j < i ==> !same_path((#[trigger] all_watches@[j]).path@, nfc_of(path@)),
        decreases all_watches.len() - i,
    {
        let other = split_components(all_watches[i].path.as_str());
        if other.len() == parts.len() && parts_begin_with(&other, &parts) {
            assert(texts(other@).take(parts.len() as int) =~= texts(other@));
            return Err(AddWatchError::WatchAlreadyExists);
        }
        proof {
            if same_path(all_watches@[i as int].path@, nfc_of(path@)) {
                assert(texts(other@).take(parts.len() as int) =~= texts(other@));
            }
        }
        i = i + 1;
    }
    let mut i: usize = 0;
    while i < all_watches.len()
        invariant
            i <= all_watches.len(),
            texts(parts@) == components(nfc_of(path@)),
            !exists_same(all_watches@, nfc_of(path@)),
            forall|j: int|
                0 <= j < i ==> !related((#[trigger] all_watches@[j]).path@, nfc_of(path@)),
        decreases all_watches.len() - i,
    {
        let other = split_components(all_watches[i].path.as_str());
        let inside = other.len() < parts.len() && parts_begin_with(&parts, &other);
        let around = parts.len() < other.len() && parts_begin_with(&other, &parts);
        if inside || around {
            return Err(AddWatchError::ParentChildRelationship);
        }
        i = i + 1;
    }
    Ok(())
}

/// A path that passes the check keeps the watches apart: where no two
/// watches share a path or lie inside one another, the same holds once
/// the checked path has joined them under its key.
pub proof fn lemma_checked_watch_keeps_apart(watches: Seq<Watch>, path: Seq<char>)
    requires
        apart(paths_of(watches)),
        !exists_same(watches, nfc_of(path)),
        !exists_related(watches, nfc_of(path)),
    ensures
        apart(paths_of(watches).push(nfc_of(path))),
{
    let key = nfc_of(path);
    let old_paths = paths_of(watches);
    let new_paths = old_paths.push(key);
    assert forall|i: int, j: int|
        0 <= i < new_paths.len() && 0 <= j < new_paths.len() && i != j implies !same_path(
        new_paths[i],
        new_paths[j],
    ) && !is_parent_of(components(new_paths[i]), components(new_paths[j])) by {
        if i < old_paths.len() && j < old_paths.len() {
            assert(new_paths[i] == old_paths[i] && new_paths[j] == old_paths[j]);
        } else if i < old_paths.len() {
            assert(new_paths[i] == watches[i].path@);
            assert(!same_path(watches[i].path@, key));
            assert(!related(watches[i].path@, key));
        } else {
            assert(new_paths[j] == watches[j].path@);
            assert(!same_path(watches[j].path@, key));
            assert(!related(watches[j].path@, key));
        }
    }
}

/// A path whose key lies in an existing watch is related to it: the
/// check cannot accept it.
pub proof fn lemma_inside_a_watch_is_related(
    watches: Seq<Watch>,
    i: int,
    name: Seq<char>,
    path: Seq<char>,
)
    requires
        0 <= i < watches.len(),
        watches[i].path@.len() > 0,
        is_name(name),
        nfc_of(path) == child(watches[i].path@, name),
    ensures
        exists_related(watches, nfc_of(path)),
{
    lemma_child_components(watches[i].path@, name);
    assert(related(watches[i].path@, nfc_of(path)));
}

/// What is stored for a new watch at `path`: the key of the path, and
/// the status of a watch that is being added.
pub fn new_watch_row(path: &str) -> (r: (String, WatchStatus))
    ensures
        r.0@ == nfc_of(path@),
        r.1 == WatchStatus::Adding,
{
    (normalize_string(path), WatchStatus::Adding)
}

/// One step in carrying out a request. A request ends with an error at
/// the first step that fails.
#[derive(Debug, PartialEq, Eq)]
pub enum WatchServiceStep {
    /// Set the status of the watch in the store.
    UpdateStatus(WatchId, WatchStatus),
    /// Have the file watcher watch the directory.
    WatchDirectory,
    /// Have the file watcher stop watching the directory.
    UnwatchDirectory,
    /// Ask the job manager for a scan of the watch.
    EnqueueScan(WatchId),
    /// Ask the job manager for the deletion of the watch.
    EnqueueDelete(WatchId),
    /// Tell the listeners.
    Emit(WatchEvent),
}

/// What follows the insert of a new watch `watch`: the directory is
/// watched, a scan is asked for, and the listeners are told.
pub fn add_watch_steps(watch: &Watch) -> (r: Vec<WatchServiceStep>)
    ensures
        r@ == seq![
            WatchServiceStep::WatchDirectory,
            WatchServiceStep::EnqueueScan(watch.id),
            WatchServiceStep::Emit(WatchEvent::AddWatchQueued { watch: *watch }),
        ],
{
    let mut steps: Vec<WatchServiceStep> = Vec::new();
    steps.push(WatchServiceStep::WatchDirectory);
    steps.push(WatchServiceStep::EnqueueScan(watch.id));
    steps.push(WatchServiceStep::Emit(WatchEvent::AddWatchQueued { watch: watch.clone() }));
    steps
}

/// The steps of the deletion of the watch at a path, given the watch that
/// the store holds under the path's key. Without a watch nothing is done.
/// With one, its status is set to `Deleting`, the directory is no longer
/// watched, the deletion is asked for, and the listeners are told of the
/// watch as deleting.
pub fn delete_watch_steps(found: Option<&Watch>) -> (r: Vec<WatchServiceStep>)
    ensures
        r@ == match found {
            None => Seq::<WatchServiceStep>::empty(),
            Some(watch) => seq![
                WatchServiceStep::UpdateStatus(watch.id, WatchStatus::Deleting),
                WatchServiceStep::UnwatchDirectory,
                WatchServiceStep::EnqueueDelete(watch.id),
                WatchServiceStep::Emit(
                    WatchEvent::DeleteWatchQueued {
                        watch: watch.with_status(WatchStatus::Deleting),
                    },
                ),
            ],
        },
{
    let mut steps: Vec<WatchServiceStep> = Vec::new();
    match found {
        None => {},
        Some(watch) => {
            steps.push(WatchServiceStep::UpdateStatus(watch.id, WatchStatus::Deleting));
            steps.push(WatchServiceStep::UnwatchDirectory);
            steps.push(WatchServiceStep::EnqueueDelete(watch.id));
            steps.push(WatchServiceStep::Emit(WatchEvent::DeleteWatchQueued { watch: watch.deleting() }));
        },
    }
    steps
}

} // verus!
