use jomai::document_gatekeeper::is_hidden;
use jomai::document_gatekeeper::is_mobile_documents;
use jomai::document_gatekeeper::is_under_data_dir;
use jomai::document_gatekeeper::is_under_library_dir;
use jomai::document_gatekeeper::DocumentGatekeeper;
use jomai::package_dir::DirFacts;

fn make_dir(parent: &std::path::Path, name: &str) -> std::path::PathBuf {
    tempfile::Builder::new().prefix(name).rand_bytes(0).tempdir_in(parent).unwrap().keep()
}

fn make_file(parent: &std::path::Path, name: &str) {
    tempfile::NamedTempFile::new_in(parent).unwrap().persist(parent.join(name)).unwrap();
}

fn keeper() -> DocumentGatekeeper {
    DocumentGatekeeper::new("/Users/akira/Library/Application Support/app.jomai.jomai".to_string())
        .with_home_dir("/Users/akira".to_string())
}

fn no_facts() -> Vec<DirFacts> {
    Vec::new()
}

#[test]
fn test_is_ok_but_under_library_dir() {
    fn is_ok(path: &str) -> bool {
        !(is_under_library_dir(path, "/Users/akira") && !is_mobile_documents(path, "/Users/akira"))
    }
    assert!(!is_ok("/Users/akira/Library/Application Support/Code/User/History/a583de1/dY2H.md"));
    assert!(is_ok(
        "/Users/akira/Library/Mobile Documents/iCloud~md~obsidian/Documents/main/Untitled.md"
    ))
}

#[test]
fn markdown_files_are_eligible() {
    let g = keeper();
    assert!(g.is_eligible_with("/w/a.md", true, &no_facts()));
    assert!(g.is_eligible_if_file_exists_with("/w/a.md", &no_facts()));
    assert!(g.is_eligible_with("/w/sub/dir/note.md", true, &no_facts()));
}

#[test]
fn a_missing_file_is_not_eligible() {
    let g = keeper();
    assert!(!g.is_eligible_with("/w/a.md", false, &no_facts()));
    assert!(g.is_eligible_if_file_exists_with("/w/a.md", &no_facts()));
}

#[test]
fn only_the_extension_md_counts() {
    let g = keeper();
    assert!(!g.is_eligible_with("/w/a.txt", true, &no_facts()));
    assert!(!g.is_eligible_with("/w/a.MD", true, &no_facts()));
    assert!(!g.is_eligible_with("/w/a.markdown", true, &no_facts()));
    assert!(!g.is_eligible_with("/w/md", true, &no_facts()));
    assert!(!g.is_eligible_with("/w/a.md.bak", true, &no_facts()));
}

#[test]
fn files_in_package_dirs_are_not_eligible() {
    let g = keeper();
    assert!(!g.is_eligible_with("/w/node_modules/z.md", true, &no_facts()));
    assert!(g.is_eligible_with("/w/keep.md", true, &no_facts()));
    assert!(!g.is_eligible_with("/w/a/bower_components/b/z.md", true, &no_facts()));
    assert!(!g.is_eligible_with("/w/Pods/z.md", true, &no_facts()));
    assert!(!g.is_eligible_with("/w/cookbooks/z.md", true, &no_facts()));
    assert!(!g.is_eligible_with("/w/site-cookbooks/z.md", true, &no_facts()));
    assert!(g.is_eligible_with("/w/vendor/z.md", true, &no_facts()));
    let with_gemfile = vec![
        DirFacts { gemfile_beside: false, composer_json_beside: false },
        DirFacts { gemfile_beside: false, composer_json_beside: false },
        DirFacts { gemfile_beside: true, composer_json_beside: false },
    ];
    assert!(!g.is_eligible_with("/w/vendor/z.md", true, &with_gemfile));
}

#[test]
fn files_in_the_data_dir_are_not_eligible() {
    let g = DocumentGatekeeper::new("/data/app".to_string());
    assert!(!g.is_eligible_with("/data/app/notes/a.md", true, &no_facts()));
    assert!(g.is_eligible_with("/data/application/a.md", true, &no_facts()));
    assert!(is_under_data_dir("/data/app/a.md", "/data/app"));
    assert!(is_under_data_dir("/data/app", "/data/app"));
    assert!(!is_under_data_dir("/data/apple/a.md", "/data/app"));
}

#[test]
fn hidden_files_are_not_eligible() {
    let g = keeper();
    assert!(!g.is_eligible_with("/w/.a.md", true, &no_facts()));
    assert!(g.is_eligible_with("/w/.dir/a.md", true, &no_facts()));
    assert!(is_hidden("/w/.a.md"));
    assert!(is_hidden(".gitignore"));
    assert!(!is_hidden("/w/.dir/a.md"));
    assert!(!is_hidden("/"));
}

#[test]
fn library_is_skipped_but_for_mobile_documents() {
    let g = keeper();
    assert!(!g.is_eligible_with("/Users/akira/Library/Caches/x/a.md", true, &no_facts()));
    assert!(g.is_eligible_with(
        "/Users/akira/Library/Mobile Documents/iCloud~md~obsidian/Documents/a.md",
        true,
        &no_facts()
    ));
    assert!(g.is_eligible_with("/Users/akira/Documents/a.md", true, &no_facts()));
    assert!(g.is_eligible_with("/Users/akira/LibraryNotes/a.md", true, &no_facts()));
    let homeless = DocumentGatekeeper::new("/data".to_string());
    assert!(homeless.is_eligible_with("/Users/akira/Library/Caches/x/a.md", true, &no_facts()));
}

#[test]
fn eligibility_asks_the_disk() {
    let dir = tempfile::tempdir().unwrap();
    let root = dir.path().to_str().unwrap().to_string();
    let g = DocumentGatekeeper::new(format!("{}/data", root));
    let file = format!("{}/keep.md", root);
    assert!(!g.is_eligible(&file));
    assert!(g.is_eligible_if_file_exists(&file));
    make_file(dir.path(), "keep.md");
    assert!(g.is_eligible(&file));
    let modules = make_dir(dir.path(), "node_modules");
    make_file(&modules, "z.md");
    let inside = format!("{}/node_modules/z.md", root);
    assert!(!g.is_eligible(&inside));
    make_dir(dir.path(), "dir.md");
    assert!(!g.is_eligible(&format!("{}/dir.md", root)));
    assert!(g.is_eligible_if_file_exists(&format!("{}/dir.md", root)));
}

#[test]
fn a_removed_file_in_a_python_package_dir_was_not_indexed() {
    let g = keeper();
    let path = "/no/such/place/python3.11/site-packages/six/readme.md";
    assert!(!g.is_eligible_if_file_exists(path));
    assert!(!g.is_eligible_if_file_exists_with(path, &no_facts()));
    assert!(!g.is_eligible_with(path, true, &no_facts()));
    assert!(g.is_eligible_if_file_exists("/no/such/place/ruby/site-packages/six/readme.md"));
    assert!(!g.is_eligible("/no/such/place/ruby/site-packages/six/readme.md"));
}
