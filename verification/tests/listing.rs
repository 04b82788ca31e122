use chatak::entries::{sort_entries, FileEntry};
use chatak::tree::{build_tree_entries, DirListing, TreeEntry};

fn e(path: &str, is_dir: bool) -> FileEntry {
    FileEntry { path: path.to_string(), is_dir }
}

fn paths(v: &[FileEntry]) -> Vec<&str> {
    v.iter().map(|x| x.path.as_str()).collect()
}

#[test]
fn directories_first_then_names_ignoring_case() {
    let sorted = sort_entries(vec![
        e("/d/zeta.txt", false),
        e("/d/Beta", true),
        e("/d/alpha.txt", false),
        e("/d/alpha", true),
        e("/d/Gamma.txt", false),
    ]);
    assert_eq!(
        paths(&sorted),
        vec!["/d/alpha", "/d/Beta", "/d/alpha.txt", "/d/Gamma.txt", "/d/zeta.txt"]
    );
}

#[test]
fn equal_names_keep_their_order() {
    let sorted = sort_entries(vec![e("/d/README", false), e("/d/readme", false), e("/d/Readme", false)]);
    assert_eq!(paths(&sorted), vec!["/d/README", "/d/readme", "/d/Readme"]);
}

#[test]
fn empty_listing_sorts_to_empty() {
    assert!(sort_entries(Vec::new()).is_empty());
}

fn listing(dir: &str, entries: Vec<FileEntry>) -> DirListing {
    DirListing { dir: dir.to_string(), entries: Ok(entries) }
}

fn rows(t: &[TreeEntry]) -> Vec<(String, usize, bool, bool)> {
    t.iter().map(|r| (r.path.clone(), r.depth, r.is_dir, r.is_expanded)).collect()
}

#[test]
fn tree_descends_into_expanded_directories_only() {
    let listings = vec![
        listing("/r", vec![e("/r/a", true), e("/r/b", true), e("/r/f.txt", false)]),
        listing("/r/a", vec![e("/r/a/x", false)]),
        listing("/r/b", vec![e("/r/b/y", false)]),
    ];
    let expanded = vec!["/r".to_string(), "/r/a".to_string()];
    let tree = build_tree_entries(&"/r".to_string(), &expanded, &listings).unwrap();
    assert_eq!(
        rows(&tree),
        vec![
            ("/r".to_string(), 0, true, true),
            ("/r/a".to_string(), 1, true, true),
            ("/r/a/x".to_string(), 2, false, false),
            ("/r/b".to_string(), 1, true, false),
            ("/r/f.txt".to_string(), 1, false, false),
        ]
    );
}

#[test]
fn tree_reports_a_failed_read_of_an_expanded_directory() {
    let listings = vec![
        listing("/r", vec![e("/r/a", true)]),
        DirListing { dir: "/r/a".to_string(), entries: Err("permission denied".to_string()) },
    ];
    let expanded = vec!["/r".to_string(), "/r/a".to_string()];
    let r = build_tree_entries(&"/r".to_string(), &expanded, &listings);
    assert_eq!(r.unwrap_err(), "permission denied");
}

#[test]
fn tree_reports_a_directory_that_was_not_read() {
    let r = build_tree_entries(&"/r".to_string(), &vec!["/r".to_string()], &Vec::new());
    assert_eq!(r.unwrap_err(), "directory was not read");
}
