//! Directories that are offered to the user as watches: the documents
//! directory and the Obsidian vault in the home directory, where they
//! exist.

use crate::disk;
use crate::paths::components;
use crate::paths::join_first;
use crate::paths::joined;
use crate::paths::split_components;
use crate::paths::texts;
use crate::text::chars_of;
use crate::text::string_of;
use vstd::prelude::*;

verus! {

/// A directory that is offered to the user.
#[derive(Debug, PartialEq, Eq)]
pub enum PathRecommendation {
    Documents(String),
    Obsidian(String),
}

/// The text of the path `name` in the directory `home`.
pub open spec fn in_home(home: Seq<char>, name: Seq<char>) -> Seq<char> {
    joined(components(home).push(name))
}

/// The path `name` in the directory `home`.
pub fn home_path(home: &str, name: &str) -> (r: String)
    ensures
        r@ == in_home(home@, name@),
{
    let mut parts = split_components(home);
    parts.push(chars_of(name));
    assert(texts(parts@) =~= components(home@).push(name@));
    assert(texts(parts@).take(parts.len() as int) =~= texts(parts@));
    let text = join_first(&parts, parts.len());
    string_of(&text)
}

/// `r` holds the recommendations for the home directory `home`, given
/// which of the two directories exist: the documents directory first.
/// Without a home directory there is none.
pub open spec fn recommended(
    r: Seq<PathRecommendation>,
    home: Option<Seq<char>>,
    documents_exists: bool,
    obsidian_exists: bool,
) -> bool {
    &&& home is None ==> r.len() == 0
    &&& home is Some ==> r.len() == (if documents_exists {
        1int
    } else {
        0int
    }) + (if obsidian_exists {
        1int
    } else {
        0int
    })
    &&& home is Some && documents_exists ==> (r[0] matches PathRecommendation::Documents(p) && p@
        == in_home(home->0, "Documents"@))
    &&& home is Some && obsidian_exists ==> (r[r.len() - 1] matches PathRecommendation::Obsidian(p)
        && p@ == in_home(home->0, "obsidian-vault"@))
}

/// The home directory as contracts speak of it.
pub open spec fn home_text(home: Option<&str>) -> Option<Seq<char>> {
    match home {
        Some(h) => Some(h@),
        None => None,
    }
}

/// The recommendations for the home directory `home`, given which of
/// the two directories exist.
pub fn get_path_recommendations_with(
    home: Option<&str>,
    documents_exists: bool,
    obsidian_exists: bool,
) -> (r: Vec<PathRecommendation>)
    ensures
        recommended(r@, home_text(home), documents_exists, obsidian_exists),
{
    let mut paths: Vec<PathRecommendation> = Vec::new();
    let home = match home {
        Some(home) => home,
        None => {
            return paths;
        },
    };
    if documents_exists {
        paths.push(PathRecommendation::Documents(home_path(home, "Documents")));
    }
    if obsidian_exists {
        paths.push(PathRecommendation::Obsidian(home_path(home, "obsidian-vault")));
    }
    paths
}

/// The recommendations for the home directory `home`: those of
/// `get_path_recommendations_with` for what the disk said.
pub fn get_path_recommendations(home: Option<&str>) -> (r: Vec<PathRecommendation>)
    ensures
        exists|documents_exists: bool, obsidian_exists: bool| #[trigger]
            recommended(r@, home_text(home), documents_exists, obsidian_exists),
{
    match home {
        Some(home_dir) => {
            let documents = home_path(home_dir, "Documents");
            let obsidian = home_path(home_dir, "obsidian-vault");
            let documents_exists = disk::is_present(documents.as_str());
            let obsidian_exists = disk::is_present(obsidian.as_str());
            get_path_recommendations_with(home, documents_exists, obsidian_exists)
        },
        None => {
            let none: Vec<PathRecommendation> = Vec::new();
            assert(recommended(none@, home_text(home), false, false));
            none
        },
    }
}

} // verus!
