//! How a watch is picked from the table of watches.
//!
//! The table is read as a whole, oldest watch first; these functions pick
//! from what was read. A path is always looked up by its key.

use crate::path_string_normalization::nfc_of;
use crate::path_string_normalization::normalize_string;
use crate::paths::components;
use crate::paths::parts_begin_with;
use crate::paths::split_components;
use crate::paths::texts;
use crate::text::chars_of;
use crate::text::is_prefix_of;
use crate::text::same_chars;
use crate::watches::Watch;
use crate::watches::WatchId;
use vstd::prelude::*;

verus! {

/// The watch at `watch_path` holds the path with the key `key`: the
/// components of the watch's path begin those of the key.
pub open spec fn holds(watch_path: Seq<char>, key: Seq<char>) -> bool {
    is_prefix_of(components(watch_path), components(key))
}

/// No watch of `watches` before index `n` holds `key`.
pub open spec fn none_holds_before(watches: Seq<Watch>, key: Seq<char>, n: int) -> bool {
    forall|j: int| 0 <= j < n ==> !holds((#[trigger] watches[j]).path@, key)
}

/// The first watch of `watches` that holds `path`: the first whose path,
/// component by component, begins the key of `path`. A watch whose path
/// only begins the text of the key holds nothing of it.
pub fn find_containing_path<'a>(watches: &'a Vec<Watch>, path: &str) -> (r: Option<&'a Watch>)
    ensures
        match r {
            Some(watch) => exists|i: int|
                0 <= i < watches.len() && *watch == watches@[i] && holds(
                    watch.path@,
                    nfc_of(path@),
                ) && none_holds_before(watches@, nfc_of(path@), i),
            None => none_holds_before(watches@, nfc_of(path@), watches.len() as int),
        },
{
    let key = normalize_string(path);
    let key_parts = split_components(key.as_str());
    let mut i: usize = 0;
    while i < watches.len()
        invariant
            i <= watches.len(),
            texts(key_parts@) == components(nfc_of(path@)),
            none_holds_before(watches@, nfc_of(path@), i as int),
        decreases watches.len() - i,
    {
        let watch_parts = split_components(watches[i].path.as_str());
        if parts_begin_with(&key_parts, &watch_parts) {
            return Some(&watches[i]);
        }
        i = i + 1;
    }
    None
}

/// The first watch of `watches` whose path is the key of `path`.
pub fn find_by_path<'a>(watches: &'a Vec<Watch>, path: &str) -> (r: Option<&'a Watch>)
    ensures
        match r {
            Some(watch) => exists|i: int|
                0 <= i < watches.len() && *watch == watches@[i] && watch.path@ == nfc_of(path@)
                    && forall|j: int| 0 <= j < i ==> (#[trigger] watches@[j]).path@ != nfc_of(path@),
            None => forall|j: int|
                0 <= j < watches.len() ==> (#[trigger] watches@[j]).path@ != nfc_of(path@),
        },
{
    let key = normalize_string(path);
    let key_chars = chars_of(key.as_str());
    let mut i: usize = 0;
    while i < watches.len()
        invariant
            i <= watches.len(),
            key_chars@ == nfc_of(path@),
            forall|j: int| 0 <= j < i ==> (#[trigger] watches@[j]).path@ != nfc_of(path@),
        decreases watches.len() - i,
    {
        let watch_chars = chars_of(watches[i].path.as_str());
        if same_chars(&key_chars, &watch_chars) {
            return Some(&watches[i]);
        }
        i = i + 1;
    }
    None
}

/// The first watch of `watches` with the identifier `id`.
pub fn find_by_id<'a>(watches: &'a Vec<Watch>, id: WatchId) -> (r: Option<&'a Watch>)
    ensures
        match r {
            Some(watch) => exists|i: int|
                0 <= i < watches.len() && *watch == watches@[i] && watch.id == id && forall|j: int|
                    0 <= j < i ==> (#[trigger] watches@[j]).id != id,
            None => forall|j: int| 0 <= j < watches.len() ==> (#[trigger] watches@[j]).id != id,
        },
{
    let mut i: usize = 0;
    while i < watches.len()
        invariant
            i <= watches.len(),
            forall|j: int| 0 <= j < i ==> (#[trigger] watches@[j]).id != id,
        decreases watches.len() - i,
    {
        if watches[i].id.0 == id.0 {
            return Some(&watches[i]);
        }
        i = i + 1;
    }
    None
}

} // verus!
