use std::path::Path;

use techlead::scanner::extension_of;
use techlead::scanner::is_excluded;
use techlead::scanner::scan;
use techlead::scanner::FileDescriptor;
use techlead::scanner::WalkEntry;

fn dir(path: &str, depth: usize) -> WalkEntry {
    let name = path.rsplit('/').next().unwrap_or(path);
    WalkEntry { path: path.to_string(), name: name.to_string(), depth, is_file: false }
}

fn file(path: &str, depth: usize) -> WalkEntry {
    let name = path.rsplit('/').next().unwrap_or(path);
    WalkEntry { path: path.to_string(), name: name.to_string(), depth, is_file: true }
}

fn names(files: &Vec<FileDescriptor>) -> Vec<String> {
    files.iter().map(|f| f.name().to_string()).collect()
}

#[test]
fn hidden_names_and_the_build_directory_are_excluded() {
    assert!(is_excluded(".git"));
    assert!(is_excluded(".gitignore"));
    assert!(is_excluded("."));
    assert!(is_excluded(".."));
    assert!(is_excluded("target"));
}

#[test]
fn other_names_are_not_excluded() {
    assert!(!is_excluded("src"));
    assert!(!is_excluded("targets"));
    assert!(!is_excluded("Target"));
    assert!(!is_excluded("my.target"));
    assert!(!is_excluded("a.b"));
    assert!(!is_excluded(""));
    assert!(!is_excluded("README.md"));
}

#[test]
fn extension_is_what_follows_the_last_dot() {
    assert_eq!(extension_of("main.rs"), Some("rs".to_string()));
    assert_eq!(extension_of("archive.tar.gz"), Some("gz".to_string()));
    assert_eq!(extension_of("Cargo.toml"), Some("toml".to_string()));
    assert_eq!(extension_of("trailing."), Some("".to_string()));
    assert_eq!(extension_of("..."), Some("".to_string()));
    assert_eq!(extension_of("..a"), Some("a".to_string()));
}

#[test]
fn names_without_an_extension() {
    assert_eq!(extension_of("Makefile"), None);
    assert_eq!(extension_of(".gitignore"), None);
    assert_eq!(extension_of(""), None);
    assert_eq!(extension_of("."), None);
    assert_eq!(extension_of(".."), None);
}

#[test]
fn extension_agrees_with_the_standard_library() {
    let samples = [
        "main.rs", "a.b.c", "Makefile", ".hidden", ".hidden.txt", "x.", "..", "...", "..a", "é.ü",
        "README.md", "a", "", ".", "name with space.toml",
    ];
    for name in samples {
        let expected =
            Path::new(name).extension().and_then(|e| e.to_str()).map(|e| e.to_string());
        assert_eq!(extension_of(name), expected, "{:?}", name);
    }
}

#[test]
fn descriptor_copies_the_entry_and_gives_files_their_extension() {
    let d = FileDescriptor::describe(&file("./src/main.rs", 2));
    assert_eq!(d.path(), "./src/main.rs");
    assert_eq!(d.name(), "main.rs");
    assert_eq!(d.depth(), 2);
    assert_eq!(d.extension(), Some("rs"));
}

#[test]
fn directory_carries_no_extension() {
    let d = FileDescriptor::describe(&dir("./docs.md", 1));
    assert_eq!(d.name(), "docs.md");
    assert_eq!(d.extension(), None);
}

#[test]
fn scan_of_nothing_is_empty() {
    assert!(scan(&vec![]).is_empty());
}

#[test]
fn scan_leaves_out_the_root() {
    assert!(scan(&vec![dir(".", 0)]).is_empty());
    assert!(scan(&vec![dir("project", 0)]).is_empty());
}

#[test]
fn scan_keeps_files_and_directories_in_order() {
    let listing = vec![
        dir(".", 0),
        file("./Cargo.toml", 1),
        dir("./src", 1),
        file("./src/main.rs", 2),
        dir("./src/deep", 2),
        file("./src/deep/x.rs", 3),
        file("./README.md", 1),
    ];
    let files = scan(&listing);
    assert_eq!(names(&files), vec!["Cargo.toml", "src", "main.rs", "deep", "x.rs", "README.md"]);
    let depths: Vec<usize> = files.iter().map(|f| f.depth()).collect();
    assert_eq!(depths, vec![1, 1, 2, 2, 3, 1]);
    assert_eq!(files[0].extension(), Some("toml"));
    assert_eq!(files[1].extension(), None);
    assert_eq!(files[2].path(), "./src/main.rs");
}

#[test]
fn scan_prunes_hidden_entries_and_what_lies_below_them() {
    let listing = vec![
        dir(".", 0),
        dir("./.git", 1),
        file("./.git/config", 2),
        dir("./.git/objects", 2),
        file("./.git/objects/ab", 3),
        file("./.gitignore", 1),
        dir("./src", 1),
        file("./src/.secret", 2),
        file("./src/lib.rs", 2),
    ];
    assert_eq!(names(&scan(&listing)), vec!["src", "lib.rs"]);
}

#[test]
fn scan_prunes_the_build_directory_at_any_depth() {
    let listing = vec![
        dir(".", 0),
        dir("./target", 1),
        dir("./target/debug", 2),
        file("./target/debug/app", 3),
        dir("./crates", 1),
        dir("./crates/one", 2),
        dir("./crates/one/target", 3),
        file("./crates/one/target/out.rs", 4),
        file("./crates/one/lib.rs", 3),
        file("./target.rs", 1),
    ];
    assert_eq!(names(&scan(&listing)), vec!["crates", "one", "lib.rs", "target.rs"]);
}

#[test]
fn scan_resumes_after_a_pruned_subtree() {
    let listing = vec![
        dir("r", 0),
        dir("r/a", 1),
        dir("r/a/.cache", 2),
        file("r/a/.cache/x.md", 3),
        dir("r/a/.cache/target", 3),
        file("r/a/.cache/target/y", 4),
        file("r/a/z.md", 2),
        file("r/b.md", 1),
    ];
    assert_eq!(names(&scan(&listing)), vec!["a", "z.md", "b.md"]);
}

#[test]
fn scan_does_not_apply_the_exclusion_to_the_root() {
    let listing = vec![dir(".", 0), file("./a.rs", 1), dir("target", 0), file("target/b.rs", 1)];
    assert_eq!(names(&scan(&listing)), vec!["a.rs", "b.rs"]);
}

#[test]
fn scan_never_yields_an_excluded_name_nor_anything_below_one() {
    let listing = vec![
        dir(".", 0),
        dir("./a", 1),
        dir("./a/.x", 2),
        dir("./a/.x/b", 3),
        file("./a/.x/b/c.rs", 4),
        dir("./a/target", 2),
        file("./a/target/d.rs", 3),
        file("./a/e.rs", 2),
        dir("./.y", 1),
        file("./.y/f.rs", 2),
        file("./g.rs", 1),
    ];
    let files = scan(&listing);
    for f in &files {
        assert!(!is_excluded(f.name()), "{}", f.name());
        for component in f.path().split('/').skip(1) {
            assert!(!is_excluded(component), "{}", f.path());
        }
    }
    assert_eq!(names(&files), vec!["a", "e.rs", "g.rs"]);
}

#[test]
fn unreadable_entries_are_passed_over() {
    let raw = vec![
        Some(dir(".", 0)),
        None,
        Some(file("./a.rs", 1)),
        None,
        None,
        Some(dir("./b", 1)),
        Some(file("./b/c.md", 2)),
    ];
    let entries = techlead::scanner::readable(&raw);
    let listed: Vec<&str> = entries.iter().map(|e| e.path.as_str()).collect();
    assert_eq!(listed, vec![".", "./a.rs", "./b", "./b/c.md"]);
    assert_eq!(entries[2].depth, 1);
    assert!(entries[1].is_file);
    assert!(!entries[2].is_file);
    assert_eq!(names(&scan(&entries)), vec!["a.rs", "b", "c.md"]);
}

#[test]
fn listing_without_readable_entries_is_empty() {
    assert!(techlead::scanner::readable(&vec![None, None]).is_empty());
    assert!(techlead::scanner::readable(&vec![]).is_empty());
}
