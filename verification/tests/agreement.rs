use jomai::document_gatekeeper::is_hidden;
use jomai::document_gatekeeper::is_under_data_dir;
use jomai::path_recommendation::home_path;
use jomai::paths::file_name;
use jomai::paths::file_stem;
use jomai::paths::has_extension;
use jomai::paths::is_parent;
use jomai::paths::split_components;
use jomai::paths::starts_with;
use jomai::query::escape_like_pattern;
use jomai::query::escape_query;
use jomai::stopwords::read_lines;
use std::io::BufRead;
use std::path::Path;

const PATHS: [&str; 40] = [
    "",
    "/",
    "//",
    ".",
    "..",
    "./",
    "/.",
    "/..",
    "a",
    "/a",
    "a/",
    "/a/",
    "a/b",
    "/a/b",
    "/a//b",
    "/a/./b",
    "/a/../b",
    "./a",
    "../a",
    ".//a",
    "./.",
    "/a/b/.",
    "/a/b/..",
    "a/.",
    "/w/a.md",
    "/w/.md",
    "/w/a.",
    "/w/a.b.md",
    "/w/.a.md",
    "/w/a.md/",
    "/w/..md",
    "/w/...",
    "/w/a..md",
    "/w/日本語.md",
    "/w/cafe\u{301}.md",
    "/w/a b.md",
    "///w///a.md",
    "w/./././a.md",
    "/./w",
    "/w/.hidden/a.md",
];

fn parts(path: &str) -> Vec<String> {
    split_components(path).iter().map(|c| c.iter().collect()).collect()
}

#[test]
fn components_agree_with_the_standard_library() {
    for path in PATHS {
        let expected: Vec<String> = Path::new(path)
            .components()
            .map(|c| c.as_os_str().to_string_lossy().into_owned())
            .collect();
        assert_eq!(parts(path), expected, "components of {:?}", path);
    }
}

#[test]
fn names_agree_with_the_standard_library() {
    for path in PATHS {
        let p = Path::new(path);
        let name = p.file_name().map(|s| s.to_string_lossy().into_owned());
        let stem = p.file_stem().map(|s| s.to_string_lossy().into_owned());
        let extension = p.extension().map(|s| s.to_string_lossy().into_owned());
        assert_eq!(file_name(path), name, "file name of {:?}", path);
        assert_eq!(file_stem(path), stem, "file stem of {:?}", path);
        for ext in ["md", "", "b.md", "."] {
            assert_eq!(
                has_extension(path, ext),
                extension == Some(ext.to_string()),
                "extension {:?} of {:?}",
                ext,
                path
            );
        }
        let hidden = p.file_name().map(|n| n.to_string_lossy().starts_with('.')).unwrap_or(false);
        assert_eq!(is_hidden(path), hidden, "hidden {:?}", path);
    }
}

#[test]
fn prefixes_agree_with_the_standard_library() {
    for a in PATHS {
        for b in PATHS {
            let (pa, pb) = (Path::new(a), Path::new(b));
            assert_eq!(starts_with(a, b), pa.starts_with(pb), "{:?} starts with {:?}", a, b);
            assert_eq!(is_under_data_dir(a, b), pa.starts_with(pb), "{:?} under {:?}", a, b);
            let parent = pa != pb && pb.starts_with(pa);
            assert_eq!(is_parent(a, b), parent, "{:?} parent of {:?}", a, b);
        }
    }
}

#[test]
fn joined_paths_agree_with_the_standard_library() {
    for home in ["/home/u", "/home/u/", "/", "home", "./home", "/a//b"] {
        let expected: Vec<String> = Path::new(home)
            .join("Documents")
            .components()
            .map(|c| c.as_os_str().to_string_lossy().into_owned())
            .collect();
        assert_eq!(parts(&home_path(home, "Documents")), expected, "in {:?}", home);
    }
}

#[test]
fn escapes_agree_with_the_standard_library() {
    for s in ["", "plain", "%", "_", "\\", "50%_off\\now", "%%__\\\\", "日本_語%"] {
        let expected = s.replace("%", r"\%").replace("_", r"\_").replace(r"\", r"\\");
        assert_eq!(escape_like_pattern(s), expected, "{:?}", s);
    }
    for s in ["", " a ", "\t(a+b)*c \n", "\u{a0}x\u{2003}", "a \\ b", " \u{3000} "] {
        let expected: String = s
            .trim()
            .chars()
            .map(|c| if r#"+^`:{}"[]()~!\*"#.contains(c) { format!("\\{}", c) } else { c.to_string() })
            .collect();
        assert_eq!(escape_query(s), expected, "{:?}", s);
    }
}

#[test]
fn lines_agree_with_the_standard_library() {
    for s in ["", "a", "a\n", "a\r\n b \r\n\r\nc", "\n\n", " x \n\ty\t\n", "日本\n語\n", "a\rb\n"] {
        let mut expected = Vec::new();
        for line in std::io::BufReader::new(s.as_bytes()).lines() {
            let line = line.unwrap();
            let line = line.trim();
            if line.is_empty() {
                continue;
            }
            expected.push(line.to_string());
        }
        assert_eq!(read_lines(s), expected, "{:?}", s);
    }
}
