//! Directories that hold the packages of a dependency manager. Nothing
//! below such a directory is indexed.

use crate::disk;
use crate::paths::components;
use crate::paths::is_special_component;
use crate::paths::file_name_of;
use crate::paths::join_first;
use crate::paths::joined;
use crate::paths::split_components;
use crate::paths::texts;
use crate::text::begins_with;
use crate::text::chars_of;
use crate::text::copy_chars;
use crate::text::is_prefix_of;
use crate::text::spells;
use crate::text::string_of;
use vstd::prelude::*;

verus! {

/// What the disk says around one directory.
#[derive(Clone, Copy, Debug, PartialEq, Eq, Structural)]
pub struct DirFacts {
    /// A regular file `Gemfile` stands beside the directory.
    pub gemfile_beside: bool,
    /// A regular file `composer.json` stands beside the directory.
    pub composer_json_beside: bool,
}

/// The final component is the name `name`.
pub open spec fn named(comps: Seq<Seq<char>>, name: Seq<char>) -> bool {
    file_name_of(comps) == Some(name)
}

pub open spec fn npm_dir(comps: Seq<Seq<char>>) -> bool {
    named(comps, "node_modules"@)
}

pub open spec fn bower_dir(comps: Seq<Seq<char>>) -> bool {
    named(comps, "bower_components"@)
}

pub open spec fn chef_dir(comps: Seq<Seq<char>>) -> bool {
    named(comps, "cookbooks"@) || named(comps, "site-cookbooks"@)
}

pub open spec fn cocoapods_dir(comps: Seq<Seq<char>>) -> bool {
    named(comps, "Pods"@)
}

/// `vendor`, with a `Gemfile` beside it.
pub open spec fn bundler_dir(comps: Seq<Seq<char>>, gemfile_beside: bool) -> bool {
    named(comps, "vendor"@) && gemfile_beside
}

/// `vendor`, with a `composer.json` beside it.
pub open spec fn composer_dir(comps: Seq<Seq<char>>, composer_json_beside: bool) -> bool {
    named(comps, "vendor"@) && composer_json_beside
}

/// `site-packages`, in a directory whose name begins with `python`. The
/// names alone decide: the disk is not asked.
pub open spec fn python_dir(comps: Seq<Seq<char>>) -> bool {
    named(comps, "site-packages"@) && match file_name_of(comps.drop_last()) {
        Some(parent_name) => is_prefix_of("python"@, parent_name),
        None => false,
    }
}

/// The directory with the components `comps` holds packages.
pub open spec fn package_dir(comps: Seq<Seq<char>>, facts: DirFacts) -> bool {
    npm_dir(comps) || bower_dir(comps) || python_dir(comps) || bundler_dir(
        comps,
        facts.gemfile_beside,
    ) || composer_dir(comps, facts.composer_json_beside) || chef_dir(comps) || cocoapods_dir(
        comps,
    )
}

/// The facts about the ancestor of `n` components; where `facts` is too
/// short, the disk is taken to hold nothing there.
pub open spec fn facts_at(facts: Seq<DirFacts>, n: int) -> DirFacts {
    if 1 <= n <= facts.len() {
        facts[n - 1]
    } else {
        DirFacts { gemfile_beside: false, composer_json_beside: false }
    }
}

/// The path or one of its ancestors is a package directory. `facts[k]`
/// speaks of the ancestor made of the first `k + 1` components.
pub open spec fn under_package_dir(comps: Seq<Seq<char>>, facts: Seq<DirFacts>) -> bool {
    exists|n: int| 1 <= n <= comps.len() && #[trigger] package_dir(comps.take(n), facts_at(facts, n))
}

fn last_is(parts: &Vec<Vec<char>>, n: usize, name: &str) -> (r: bool)
    requires
        n <= parts.len(),
    ensures
        r == named(texts(parts@).take(n as int), name@),
{
    if n == 0 {
        return false;
    }
    !is_special_component(&parts[n - 1]) && spells(&parts[n - 1], name)
}

/// Whether the directory made of the first `n` components of `parts` holds
/// packages, given what the disk says around it.
pub fn is_package_dir_at(parts: &Vec<Vec<char>>, n: usize, facts: DirFacts) -> (r: bool)
    requires
        n <= parts.len(),
    ensures
        r == package_dir(texts(parts@).take(n as int), facts),
{
    if last_is(parts, n, "node_modules") || last_is(parts, n, "bower_components") || last_is(
        parts,
        n,
        "cookbooks",
    ) || last_is(parts, n, "site-cookbooks") || last_is(parts, n, "Pods") {
        return true;
    }
    if last_is(parts, n, "vendor") {
        proof {
            lemma_names_differ();
        }
        return facts.gemfile_beside || facts.composer_json_beside;
    }
    proof {
        lemma_names_differ();
    }
    is_python_dir_at(parts, n)
}

/// Whether the directory made of the first `n` components of `parts` is
/// a Python package directory.
fn is_python_dir_at(parts: &Vec<Vec<char>>, n: usize) -> (r: bool)
    requires
        n <= parts.len(),
    ensures
        r == python_dir(texts(parts@).take(n as int)),
{
    if !last_is(parts, n, "site-packages") || n < 2 {
        return false;
    }
    if is_special_component(&parts[n - 2]) {
        return false;
    }
    let python = chars_of("python");
    begins_with(&parts[n - 2], &python)
}

/// The two names that ask the disk are no other package directory's name.
proof fn lemma_names_differ()
    ensures
        "vendor"@ != "node_modules"@,
        "vendor"@ != "bower_components"@,
        "vendor"@ != "cookbooks"@,
        "vendor"@ != "site-cookbooks"@,
        "vendor"@ != "Pods"@,
        "vendor"@ != "site-packages"@,
        "site-packages"@ != "node_modules"@,
        "site-packages"@ != "bower_components"@,
        "site-packages"@ != "cookbooks"@,
        "site-packages"@ != "site-cookbooks"@,
        "site-packages"@ != "Pods"@,
{
    reveal_strlit("vendor");
    reveal_strlit("node_modules");
    reveal_strlit("bower_components");
    reveal_strlit("cookbooks");
    reveal_strlit("site-cookbooks");
    reveal_strlit("Pods");
    reveal_strlit("site-packages");
    assert("vendor"@.len() == 6);
    assert("node_modules"@.len() == 12);
    assert("bower_components"@.len() == 16);
    assert("cookbooks"@.len() == 9);
    assert("site-cookbooks"@.len() == 14);
    assert("Pods"@.len() == 4);
}

/// The facts about the ancestor of `n` components.
pub fn fact_for(facts: &Vec<DirFacts>, n: usize) -> (r: DirFacts)
    ensures
        r == facts_at(facts@, n as int),
{
    if 1 <= n && n <= facts.len() {
        facts[n - 1]
    } else {
        DirFacts { gemfile_beside: false, composer_json_beside: false }
    }
}

/// Whether the path with the components `parts`, or one of its ancestors,
/// is a package directory, given what the disk says around each of them.
pub fn is_under_package_dir_at(parts: &Vec<Vec<char>>, facts: &Vec<DirFacts>) -> (r: bool)
    ensures
        r == under_package_dir(texts(parts@), facts@),
{
    let mut n: usize = parts.len();
    while n > 0
        invariant
            n <= parts.len(),
            forall|m: int|
                n < m <= parts.len() ==> !#[trigger] package_dir(
                    texts(parts@).take(m),
                    facts_at(facts@, m),
                ),
        decreases n,
    {
        if is_package_dir_at(parts, n, fact_for(facts, n)) {
            return true;
        }
        n = n - 1;
    }
    false
}

/// The text of the path that stands beside the directory made of the
/// first `n` components of `parts`, under the name `name`.
pub fn sibling_path(parts: &Vec<Vec<char>>, n: usize, name: &str) -> (r: String)
    requires
        1 <= n <= parts.len(),
    ensures
        r@ == joined(texts(parts@).take(n - 1).push(name@)),
{
    let mut beside: Vec<Vec<char>> = Vec::new();
    let mut i: usize = 0;
    while i < n - 1
        invariant
            i <= n - 1,
            n <= parts.len(),
            texts(beside@) == texts(parts@).take(i as int),
        decreases n - 1 - i,
    {
        let ghost before = beside@;
        let piece = copy_chars(&parts[i]);
        beside.push(piece);
        assert(texts(beside@) =~= texts(before).push(piece@));
        i = i + 1;
    }
    let ghost before = beside@;
    beside.push(chars_of(name));
    assert(texts(beside@) =~= texts(before).push(name@));
    assert(texts(beside@).take(n as int) =~= texts(beside@));
    let joined_text = join_first(&beside, n);
    string_of(&joined_text)
}

/// Asks the disk what `is_package_dir_at` needs to know about the
/// directory made of the first `n` components of `parts`. The disk is
/// asked only where the directory's name makes the answer matter.
pub(crate) fn probe_dir(parts: &Vec<Vec<char>>, n: usize) -> (r: DirFacts)
    requires
        n <= parts.len(),
    ensures
        !named(texts(parts@).take(n as int), "vendor"@) ==> !r.gemfile_beside
            && !r.composer_json_beside,
{
    let mut facts = DirFacts { gemfile_beside: false, composer_json_beside: false };
    if n == 0 {
        return facts;
    }
    if last_is(parts, n, "vendor") {
        let gemfile = sibling_path(parts, n, "Gemfile");
        facts.gemfile_beside = disk::is_file(gemfile.as_str());
        let composer_json = sibling_path(parts, n, "composer.json");
        facts.composer_json_beside = disk::is_file(composer_json.as_str());
    }
    facts
}

/// Asks the disk about every ancestor of the path with the components
/// `parts`: entry `k` speaks of the first `k + 1` components.
pub(crate) fn probe_ancestors(parts: &Vec<Vec<char>>) -> (r: Vec<DirFacts>)
    ensures
        r.len() == parts.len(),
{
    let mut all: Vec<DirFacts> = Vec::new();
    let mut k: usize = 0;
    while k < parts.len()
        invariant
            k <= parts.len(),
            all.len() == k,
        decreases parts.len() - k,
    {
        all.push(probe_dir(parts, k + 1));
        k = k + 1;
    }
    all
}

/// Whether `path` is an npm package directory: its name is `node_modules`.
pub fn is_npm_package_dir(path: &str) -> (r: bool)
    ensures
        r == npm_dir(components(path@)),
{
    let parts = split_components(path);
    last_is(&parts, parts.len(), "node_modules")
}

/// Whether `path` is a Bower package directory: its name is
/// `bower_components`.
pub fn is_bower_package_dir(path: &str) -> (r: bool)
    ensures
        r == bower_dir(components(path@)),
{
    let parts = split_components(path);
    last_is(&parts, parts.len(), "bower_components")
}

/// Whether `path` is a Chef cookbook directory: its name is `cookbooks`
/// or `site-cookbooks`.
pub fn is_chef_cookbook_dir(path: &str) -> (r: bool)
    ensures
        r == chef_dir(components(path@)),
{
    let parts = split_components(path);
    last_is(&parts, parts.len(), "cookbooks") || last_is(&parts, parts.len(), "site-cookbooks")
}

/// Whether `path` is a CocoaPods directory: its name is `Pods`.
pub fn is_cocoapods_pods_dir(path: &str) -> (r: bool)
    ensures
        r == cocoapods_dir(components(path@)),
{
    let parts = split_components(path);
    last_is(&parts, parts.len(), "Pods")
}

/// Whether `path` is Bundler's vendor directory, given whether a `Gemfile`
/// stands beside it.
pub fn bundler_package_dir_with(path: &str, gemfile_beside: bool) -> (r: bool)
    ensures
        r == bundler_dir(components(path@), gemfile_beside),
{
    let parts = split_components(path);
    last_is(&parts, parts.len(), "vendor") && gemfile_beside
}

/// Whether `path` is Bundler's vendor directory: its name is `vendor` and
/// the disk holds a `Gemfile` beside it. The disk is asked only for a
/// directory of that name.
pub fn is_bundler_package_dir(path: &str) -> (r: bool)
    ensures
        r ==> named(components(path@), "vendor"@),
{
    let parts = split_components(path);
    if !last_is(&parts, parts.len(), "vendor") {
        return false;
    }
    let gemfile = sibling_path(&parts, parts.len(), "Gemfile");
    let gemfile_beside = disk::is_file(gemfile.as_str());
    bundler_package_dir_with(path, gemfile_beside)
}

/// Whether `path` is Composer's vendor directory, given whether a
/// `composer.json` stands beside it.
pub fn composer_package_dir_with(path: &str, composer_json_beside: bool) -> (r: bool)
    ensures
        r == composer_dir(components(path@), composer_json_beside),
{
    let parts = split_components(path);
    last_is(&parts, parts.len(), "vendor") && composer_json_beside
}

/// Whether `path` is Composer's vendor directory: its name is `vendor`
/// and the disk holds a `composer.json` beside it. The disk is asked only
/// for a directory of that name.
pub fn is_composer_package_dir(path: &str) -> (r: bool)
    ensures
        r ==> named(components(path@), "vendor"@),
{
    let parts = split_components(path);
    if !last_is(&parts, parts.len(), "vendor") {
        return false;
    }
    let composer_json = sibling_path(&parts, parts.len(), "composer.json");
    let composer_json_beside = disk::is_file(composer_json.as_str());
    composer_package_dir_with(path, composer_json_beside)
}

/// Whether `path` is a Python package directory: its name is
/// `site-packages` and the name of its parent begins with `python`.
pub fn is_python_package_dir(path: &str) -> (r: bool)
    ensures
        r == python_dir(components(path@)),
{
    let parts = split_components(path);
    assert(texts(parts@).take(parts.len() as int) =~= texts(parts@));
    is_python_dir_at(&parts, parts.len())
}

/// Whether `path` is a package directory, given what the disk says around
/// it.
pub fn is_package_dir_with(path: &str, facts: DirFacts) -> (r: bool)
    ensures
        r == package_dir(components(path@), facts),
{
    let parts = split_components(path);
    is_package_dir_at(&parts, parts.len(), facts)
}

/// Whether `path` is a package directory. The answer is that of
/// `is_package_dir_with` for what the disk said.
pub fn is_package_dir(path: &str) -> (r: bool)
    ensures
        exists|facts: DirFacts| r == #[trigger] package_dir(components(path@), facts),
{
    let parts = split_components(path);
    assert(texts(parts@).take(parts.len() as int) =~= texts(parts@));
    let facts = probe_dir(&parts, parts.len());
    is_package_dir_at(&parts, parts.len(), facts)
}

/// Whether `path` or one of its ancestors is a package directory, given
/// what the disk says around each of them: `facts[k]` speaks of the
/// ancestor made of the first `k + 1` components.
pub fn is_under_package_dir_with(path: &str, facts: &Vec<DirFacts>) -> (r: bool)
    ensures
        r == under_package_dir(components(path@), facts@),
{
    let parts = split_components(path);
    is_under_package_dir_at(&parts, facts)
}

/// Whether `path` or one of its ancestors is a package directory. The
/// answer is that of `is_under_package_dir_with` for what the disk said.
pub fn is_under_package_dir(path: &str) -> (r: bool)
    ensures
        exists|facts: Seq<DirFacts>| r == #[trigger] under_package_dir(components(path@), facts),
{
    let parts = split_components(path);
    let facts = probe_ancestors(&parts);
    is_under_package_dir_at(&parts, &facts)
}

} // verus!
