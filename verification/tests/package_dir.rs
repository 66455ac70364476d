use jomai::package_dir::bundler_package_dir_with;
use jomai::package_dir::composer_package_dir_with;
use jomai::package_dir::is_bower_package_dir;
use jomai::package_dir::is_bundler_package_dir;
use jomai::package_dir::is_chef_cookbook_dir;
use jomai::package_dir::is_cocoapods_pods_dir;
use jomai::package_dir::is_composer_package_dir;
use jomai::package_dir::is_npm_package_dir;
use jomai::package_dir::is_package_dir;
use jomai::package_dir::is_package_dir_with;
use jomai::package_dir::is_python_package_dir;
use jomai::package_dir::is_under_package_dir;
use jomai::package_dir::is_under_package_dir_with;
use jomai::package_dir::DirFacts;

fn make_dir(parent: &std::path::Path, name: &str) -> std::path::PathBuf {
    tempfile::Builder::new().prefix(name).rand_bytes(0).tempdir_in(parent).unwrap().keep()
}

fn make_file(parent: &std::path::Path, name: &str) {
    tempfile::NamedTempFile::new_in(parent).unwrap().persist(parent.join(name)).unwrap();
}

fn nothing() -> DirFacts {
    DirFacts { gemfile_beside: false, composer_json_beside: false }
}

#[test]
fn bower_test() {
    assert_eq!(is_bower_package_dir("/a/b/bower_components"), true);
    assert_eq!(is_bower_package_dir("/bower_components"), true);
    assert_eq!(is_bower_package_dir("./bower_components"), true);
    assert_eq!(is_bower_package_dir("../bower_components"), true);
    assert_eq!(is_bower_package_dir("/a/b"), false);
}

#[test]
fn chef_test() {
    assert_eq!(is_chef_cookbook_dir("/a/b/cookbooks"), true);
    assert_eq!(is_chef_cookbook_dir("/cookbooks"), true);
    assert_eq!(is_chef_cookbook_dir("/site-cookbooks"), true);
    assert_eq!(is_chef_cookbook_dir("/a/b"), false);
}

#[test]
fn cocoapods_test() {
    assert_eq!(is_cocoapods_pods_dir("/a/b/Pods"), true);
    assert_eq!(is_cocoapods_pods_dir("/Pods"), true);
    assert_eq!(is_cocoapods_pods_dir("/a/b"), false);
}

#[test]
fn npm_test() {
    assert_eq!(is_npm_package_dir("/a/b/node_modules"), true);
    assert_eq!(is_npm_package_dir("/node_modules"), true);
    assert_eq!(is_npm_package_dir("./node_modules"), true);
    assert_eq!(is_npm_package_dir("../node_modules"), true);
    assert_eq!(is_npm_package_dir("/a/b"), false);
}

#[test]
fn bundler_test_true() {
    let dir = tempfile::tempdir().unwrap();
    let vendor_dir = make_dir(dir.path(), "vendor");
    make_file(dir.path(), "Gemfile");

    assert_eq!(is_bundler_package_dir(vendor_dir.to_str().unwrap()), true);
}

#[test]
fn no_gemfile() {
    let dir = tempfile::tempdir().unwrap();
    let vendor_dir = make_dir(dir.path(), "vendor");

    assert_eq!(is_bundler_package_dir(vendor_dir.to_str().unwrap()), false);
}

#[test]
fn bundler_not_vendor_dir() {
    let dir = tempfile::tempdir().unwrap();
    assert_eq!(is_bundler_package_dir(dir.path().to_str().unwrap()), false);
}

#[test]
fn composer_test_true() {
    let dir = tempfile::tempdir().unwrap();
    let vendor_dir = make_dir(dir.path(), "vendor");
    make_file(dir.path(), "composer.json");

    assert_eq!(is_composer_package_dir(vendor_dir.to_str().unwrap()), true);
}

#[test]
fn no_composer_json() {
    let dir = tempfile::tempdir().unwrap();
    let vendor_dir = make_dir(dir.path(), "vendor");

    assert_eq!(is_composer_package_dir(vendor_dir.to_str().unwrap()), false);
}

#[test]
fn composer_not_vendor_dir() {
    let dir = tempfile::tempdir().unwrap();
    assert_eq!(is_composer_package_dir(dir.path().to_str().unwrap()), false);
}

#[test]
fn python_test_true() {
    let dir = tempfile::tempdir().unwrap();
    let python_dir = make_dir(dir.path(), "python3.6");
    let package_dir = make_dir(&python_dir, "site-packages");

    assert_eq!(is_python_package_dir(package_dir.to_str().unwrap()), true);
}

#[test]
fn not_python_dir() {
    let dir = tempfile::tempdir().unwrap();
    let other_dir = make_dir(dir.path(), "aaa");
    let package_dir = make_dir(&other_dir, "site-packages");

    assert_eq!(is_python_package_dir(package_dir.to_str().unwrap()), false);
}

#[test]
fn not_site_package_dir() {
    let dir = tempfile::tempdir().unwrap();
    assert_eq!(is_python_package_dir(dir.path().to_str().unwrap()), false);
}

#[test]
fn vendor_needs_a_gemfile_or_a_composer_json() {
    assert!(bundler_package_dir_with("/p/vendor", true));
    assert!(!bundler_package_dir_with("/p/vendor", false));
    assert!(!bundler_package_dir_with("/p/vendors", true));
    assert!(composer_package_dir_with("/p/vendor", true));
    assert!(!composer_package_dir_with("/p/vendor", false));
    assert!(!composer_package_dir_with("/p/lib", true));
}

#[test]
fn site_packages_needs_a_python_parent() {
    assert!(is_python_package_dir("/usr/lib/python3.11/site-packages"));
    assert!(is_python_package_dir("/usr/lib/python/site-packages"));
    assert!(is_python_package_dir("/usr/lib/python3.11/site-packages/"));
    assert!(!is_python_package_dir("/usr/lib/ruby/site-packages"));
    assert!(!is_python_package_dir("/usr/lib/mypython/site-packages"));
    assert!(!is_python_package_dir("/usr/lib/Python3/site-packages"));
    assert!(!is_python_package_dir("/usr/lib/python3.11/site-package"));
    assert!(!is_python_package_dir("/usr/lib/python3.11/site-packages/six"));
    assert!(!is_python_package_dir("/site-packages"));
    assert!(!is_python_package_dir("site-packages"));
}

#[test]
fn a_python_package_dir_is_told_by_its_names_alone() {
    // nothing of this is on disk
    let gone = "/no/such/place/python3/site-packages";
    assert!(is_python_package_dir(gone));
    assert!(is_package_dir(gone));
    assert!(is_package_dir_with(gone, nothing()));
    assert!(is_under_package_dir("/no/such/place/python3/site-packages/six/readme.md"));
    let none: Vec<DirFacts> = Vec::new();
    assert!(is_under_package_dir_with("/no/such/place/python3/site-packages/readme.md", &none));
    assert!(!is_under_package_dir_with("/no/such/place/ruby/site-packages/readme.md", &none));
}

#[test]
fn package_dir_with_facts() {
    assert!(is_package_dir_with("/a/node_modules", nothing()));
    assert!(is_package_dir_with("/a/site-cookbooks", nothing()));
    assert!(!is_package_dir_with("/a/vendor", nothing()));
    assert!(is_package_dir_with(
        "/a/vendor",
        DirFacts { gemfile_beside: false, composer_json_beside: true }
    ));
    assert!(!is_package_dir_with("/a/src", nothing()));
    assert!(is_package_dir("/a/b/Pods"));
    assert!(!is_package_dir("/a/b/pods"));
}

#[test]
fn under_package_dir_looks_at_every_ancestor() {
    let none: Vec<DirFacts> = Vec::new();
    assert!(is_under_package_dir_with("/w/node_modules/z.md", &none));
    assert!(is_under_package_dir_with("/w/node_modules/deep/er/z.md", &none));
    assert!(!is_under_package_dir_with("/w/keep.md", &none));
    assert!(!is_under_package_dir_with("/w/vendor/z.md", &none));
    // "/", "w", "vendor", "z.md": the third ancestor has a Gemfile beside it
    let facts = vec![
        nothing(),
        nothing(),
        DirFacts { gemfile_beside: true, composer_json_beside: false },
        nothing(),
    ];
    assert!(is_under_package_dir_with("/w/vendor/z.md", &facts));
    assert!(is_under_package_dir("/w/bower_components/z.md"));
    assert!(!is_under_package_dir("/w/notes/z.md"));
}

#[test]
fn under_package_dir_asks_the_disk_for_vendor() {
    let dir = tempfile::tempdir().unwrap();
    let project = make_dir(dir.path(), "p");
    let vendor = make_dir(&project, "vendor");
    let gems = make_dir(&vendor, "gems");
    make_file(&gems, "readme.md");
    let file = gems.join("readme.md");
    assert!(!is_under_package_dir(file.to_str().unwrap()));
    make_file(&project, "Gemfile");
    assert!(is_under_package_dir(file.to_str().unwrap()));
}
