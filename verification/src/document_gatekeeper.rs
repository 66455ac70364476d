//! Which files are indexed.
//!
//! A file is indexed when it is a regular file with the extension `md`,
//! lies in no package directory, lies outside the application's data
//! directory, is not hidden, and, where it lies in the user's `Library`
//! directory, lies in `Library/Mobile Documents`.

use crate::disk;
use crate::package_dir::is_under_package_dir_at;
use crate::package_dir::probe_ancestors;
use crate::package_dir::under_package_dir;
use crate::package_dir::DirFacts;
use crate::paths::components;
use crate::paths::extension_of;
use crate::paths::file_name_index;
use crate::paths::file_name_of;
use crate::paths::name_has_extension;
use crate::paths::parts_begin_with;
use crate::paths::split_components;
use crate::paths::texts;
use crate::text::chars_of;
use crate::text::is_prefix_of;
use vstd::prelude::*;

verus! {

/// The path's name begins with `.`.
pub open spec fn hidden(comps: Seq<Seq<char>>) -> bool {
    match file_name_of(comps) {
        Some(name) => name.len() > 0 && name[0] == '.',
        None => false,
    }
}

/// The path's name has the extension `md`.
pub open spec fn markdown_named(comps: Seq<Seq<char>>) -> bool {
    match file_name_of(comps) {
        Some(name) => extension_of(name) == Some("md"@),
        None => false,
    }
}

/// The directory `Library` in the home directory `home`.
pub open spec fn library_dir(home: Seq<char>) -> Seq<Seq<char>> {
    components(home).push("Library"@)
}

/// The directory `Library/Mobile Documents` in the home directory `home`.
pub open spec fn mobile_documents_dir(home: Seq<char>) -> Seq<Seq<char>> {
    library_dir(home).push("Mobile Documents"@)
}

/// The path lies in `Library` but not in `Library/Mobile Documents`.
/// Without a home directory no path does.
pub open spec fn in_skipped_library(home: Option<Seq<char>>, comps: Seq<Seq<char>>) -> bool {
    match home {
        Some(h) => is_prefix_of(library_dir(h), comps) && !is_prefix_of(
            mobile_documents_dir(h),
            comps,
        ),
        None => false,
    }
}

/// Decides which paths are indexed.
#[derive(Debug)]
pub struct DocumentGatekeeper {
    data_dir: String,
    home_dir: Option<String>,
}

impl Clone for DocumentGatekeeper {
    fn clone(&self) -> (r: Self)
        ensures
            r.data_dir() == self.data_dir(),
            r.home_dir() == self.home_dir(),
    {
        DocumentGatekeeper {
            data_dir: self.data_dir.clone(),
            home_dir: match &self.home_dir {
                Some(h) => Some(h.clone()),
                None => None,
            },
        }
    }
}

impl DocumentGatekeeper {
    /// The application's data directory.
    pub closed spec fn data_dir(&self) -> Seq<char> {
        self.data_dir@
    }

    /// The user's home directory, where one is known.
    pub closed spec fn home_dir(&self) -> Option<Seq<char>> {
        match self.home_dir {
            Some(h) => Some(h@),
            None => None,
        }
    }

    /// Whether a file at `path` would be indexed, were it a regular file.
    /// `facts[k]` says what the disk holds around the ancestor made of the
    /// first `k + 1` components of `path`.
    pub open spec fn admits(&self, path: Seq<char>, facts: Seq<DirFacts>) -> bool {
        let comps = components(path);
        &&& markdown_named(comps)
        &&& !under_package_dir(comps, facts)
        &&& !is_prefix_of(components(self.data_dir()), comps)
        &&& !hidden(comps)
        &&& !in_skipped_library(self.home_dir(), comps)
    }

    /// A gatekeeper for the data directory `data_dir` that knows no home
    /// directory.
    pub fn new(data_dir: String) -> (r: Self)
        ensures
            r.data_dir() == data_dir@,
            r.home_dir() is None,
    {
        DocumentGatekeeper { data_dir, home_dir: None }
    }

    /// The same gatekeeper, with `home` as the user's home directory.
    pub fn with_home_dir(self, home: String) -> (r: Self)
        ensures
            r.data_dir() == self.data_dir(),
            r.home_dir() == Some(home@),
    {
        DocumentGatekeeper { data_dir: self.data_dir, home_dir: Some(home) }
    }

    /// What of eligibility can be read off the path alone: everything but
    /// the package directories.
    pub open spec fn admits_by_name(&self, path: Seq<char>) -> bool {
        let comps = components(path);
        &&& markdown_named(comps)
        &&& !is_prefix_of(components(self.data_dir()), comps)
        &&& !hidden(comps)
        &&& !in_skipped_library(self.home_dir(), comps)
    }

    fn admits_parts_by_name(&self, parts: &Vec<Vec<char>>) -> (r: bool)
        ensures
            r == {
                let comps = texts(parts@);
                &&& markdown_named(comps)
                &&& !is_prefix_of(components(self.data_dir()), comps)
                &&& !hidden(comps)
                &&& !in_skipped_library(self.home_dir(), comps)
            },
    {
        let markdown = match file_name_index(parts) {
            Some(k) => name_has_extension(&parts[k], "md"),
            None => false,
        };
        if !markdown {
            return false;
        }
        let data_parts = split_components(self.data_dir.as_str());
        if parts_begin_with(parts, &data_parts) {
            return false;
        }
        if parts_hidden(parts) {
            return false;
        }
        match &self.home_dir {
            Some(h) => !parts_in_skipped_library(h.as_str(), parts),
            None => true,
        }
    }

    /// Whether a file at `path` would be indexed, were it a regular file,
    /// given what the disk says around each ancestor of `path`.
    pub fn is_eligible_if_file_exists_with(&self, path: &str, facts: &Vec<DirFacts>) -> (r: bool)
        ensures
            r == self.admits(path@, facts@),
    {
        let parts = split_components(path);
        self.admits_parts_by_name(&parts) && !is_under_package_dir_at(&parts, facts)
    }

    /// Whether the file at `path` is indexed, where `is_file` says whether
    /// it is a regular file and `facts` what the disk holds around its
    /// ancestors.
    pub open spec fn eligible(&self, path: Seq<char>, is_file: bool, facts: Seq<DirFacts>) -> bool {
        is_file && self.admits(path, facts)
    }

    /// Whether the file at `path` is indexed, given whether it is a regular
    /// file and what the disk says around each ancestor of `path`.
    pub fn is_eligible_with(&self, path: &str, is_file: bool, facts: &Vec<DirFacts>) -> (r: bool)
        ensures
            r == self.eligible(path@, is_file, facts@),
    {
        is_file && self.is_eligible_if_file_exists_with(path, facts)
    }

    /// Whether a file at `path` would be indexed, were it a regular file.
    /// The answer is that of `is_eligible_if_file_exists_with` for what the
    /// disk said about the ancestors of `path`. The disk is asked only
    /// about a path that its name does not rule out.
    pub fn is_eligible_if_file_exists(&self, path: &str) -> (r: bool)
        ensures
            exists|facts: Seq<DirFacts>| r == #[trigger] self.admits(path@, facts),
            r ==> self.admits_by_name(path@),
    {
        let parts = split_components(path);
        if !self.admits_parts_by_name(&parts) {
            assert(false == self.admits(path@, Seq::<DirFacts>::empty()));
            return false;
        }
        let facts = probe_ancestors(&parts);
        let r = !is_under_package_dir_at(&parts, &facts);
        assert(r == self.admits(path@, facts@));
        r
    }

    /// Whether the file at `path` is indexed. The disk is asked whether
    /// the path is a regular file and what it holds around the path's
    /// ancestors, and the answer is that of `is_eligible_with` for what
    /// it said; so a path that no disk could make eligible is never
    /// accepted.
    pub fn is_eligible(&self, path: &str) -> (r: bool)
        ensures
            exists|is_file: bool, facts: Seq<DirFacts>|
                r == #[trigger] self.eligible(path@, is_file, facts),
            r ==> self.admits_by_name(path@),
    {
        let is_file = disk::is_file(path);
        let parts = split_components(path);
        let facts = probe_ancestors(&parts);
        self.is_eligible_with(path, is_file, &facts)
    }
}

/// Nothing below a package directory is indexed: a path one of whose
/// ancestors is a package directory is not admitted, whatever else holds
/// of it. So a walk may leave out everything below such a directory.
pub proof fn lemma_nothing_below_a_package_dir_is_admitted(
    gatekeeper: DocumentGatekeeper,
    path: Seq<char>,
    facts: Seq<DirFacts>,
    n: int,
)
    requires
        1 <= n <= components(path).len(),
        crate::package_dir::package_dir(
            components(path).take(n),
            crate::package_dir::facts_at(facts, n),
        ),
    ensures
        !gatekeeper.admits(path, facts),
{
}

fn parts_hidden(parts: &Vec<Vec<char>>) -> (r: bool)
    ensures
        r == hidden(texts(parts@)),
{
    match file_name_index(parts) {
        Some(k) => parts[k].len() > 0 && parts[k][0] == '.',
        None => false,
    }
}

fn parts_in_skipped_library(home: &str, parts: &Vec<Vec<char>>) -> (r: bool)
    ensures
        r == in_skipped_library(Some(home@), texts(parts@)),
{
    let mut dir = split_components(home);
    dir.push(chars_of("Library"));
    assert(texts(dir@) =~= library_dir(home@));
    if !parts_begin_with(parts, &dir) {
        return false;
    }
    dir.push(chars_of("Mobile Documents"));
    assert(texts(dir@) =~= mobile_documents_dir(home@));
    !parts_begin_with(parts, &dir)
}

/// Whether `path` lies at or below the data directory `data_dir`.
pub fn is_under_data_dir(path: &str, data_dir: &str) -> (r: bool)
    ensures
        r == is_prefix_of(components(data_dir@), components(path@)),
{
    let parts = split_components(path);
    let data_parts = split_components(data_dir);
    parts_begin_with(&parts, &data_parts)
}

/// Whether the name of `path` begins with `.`.
pub fn is_hidden(path: &str) -> (r: bool)
    ensures
        r == hidden(components(path@)),
{
    let parts = split_components(path);
    parts_hidden(&parts)
}

/// Whether `path` lies in `Library` in the home directory `home`.
pub fn is_under_library_dir(path: &str, home: &str) -> (r: bool)
    ensures
        r == is_prefix_of(library_dir(home@), components(path@)),
{
    let parts = split_components(path);
    let mut dir = split_components(home);
    dir.push(chars_of("Library"));
    assert(texts(dir@) =~= library_dir(home@));
    parts_begin_with(&parts, &dir)
}

/// Whether `path` lies in `Library/Mobile Documents` in the home
/// directory `home`.
pub fn is_mobile_documents(path: &str, home: &str) -> (r: bool)
    ensures
        r == is_prefix_of(mobile_documents_dir(home@), components(path@)),
{
    let parts = split_components(path);
    let mut dir = split_components(home);
    dir.push(chars_of("Library"));
    dir.push(chars_of("Mobile Documents"));
    assert(texts(dir@) =~= mobile_documents_dir(home@));
    parts_begin_with(&parts, &dir)
}

} // verus!
