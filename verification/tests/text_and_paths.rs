use chatak::config::default_config;
use chatak::entries::FileEntry;
use chatak::labels::icon_for_entry;
use chatak::paths::{contains_path, file_name_or_empty, insert_path, remove_path};
use chatak::requests::Request;
use chatak::state::AppState;
use chatak::tree::DirListing;
use chatak::text::{contains_chars, count_lines, decimal_string, eq_ignore_ascii_case, to_ascii_lowercase, trim};

fn chars(s: &str) -> Vec<char> {
    s.chars().collect()
}

#[test]
fn lowercase_only_touches_ascii_capitals() {
    assert_eq!(to_ascii_lowercase("ReadMe.MD"), "readme.md");
    assert_eq!(to_ascii_lowercase("ÄBC"), "Äbc");
    assert_eq!(to_ascii_lowercase(""), "");
}

#[test]
fn eq_ignore_case_compares_lowercased() {
    assert!(eq_ignore_ascii_case("PNG", "png"));
    assert!(!eq_ignore_ascii_case("png", "pn"));
}

#[test]
fn substring_search() {
    assert!(contains_chars(&chars("hello world"), &chars("o w")));
    assert!(contains_chars(&chars("abc"), &chars("")));
    assert!(!contains_chars(&chars("abc"), &chars("abcd")));
    assert!(!contains_chars(&chars("abc"), &chars("ac")));
}

#[test]
fn trim_removes_unicode_white_space_at_both_ends() {
    assert_eq!(trim("  name \t\n"), "name");
    assert_eq!(trim("\u{3000}y\u{a0}"), "y");
    assert_eq!(trim("   "), "");
    assert_eq!(trim("a b"), "a b");
}

#[test]
fn decimal_forms() {
    assert_eq!(decimal_string(0), "0");
    assert_eq!(decimal_string(7), "7");
    assert_eq!(decimal_string(1234), "1234");
    assert_eq!(decimal_string(u64::MAX), "18446744073709551615");
}

#[test]
fn line_counts_follow_str_lines() {
    assert_eq!(count_lines(""), 0);
    assert_eq!(count_lines("a"), 1);
    assert_eq!(count_lines("a\n"), 1);
    assert_eq!(count_lines("a\nb"), 2);
    assert_eq!(count_lines("\n\n"), 2);
}

fn state_in(dir: &str) -> AppState {
    let entries = vec![FileEntry { path: format!("{dir}/a.txt"), is_dir: false }];
    AppState::new(default_config(), DirListing { dir: dir.to_string(), entries: Ok(entries) }).unwrap().0
}

#[test]
fn path_operations() {
    assert_eq!(file_name_or_empty("/home/me/notes.txt"), "notes.txt");
    assert_eq!(file_name_or_empty("/home/me/"), "me");
    assert_eq!(file_name_or_empty("/"), "");
    let s = state_in("/home");
    assert_eq!(s.resolve_path("me"), "/home/me");
    assert_eq!(s.resolve_path("me/x.txt"), "/home/me/x.txt");
    assert_eq!(s.resolve_path("/etc"), "/etc");
    assert_eq!(icon_for_entry(false, "/p/lib.RS"), icon_for_entry(false, "/p/x.rs"));
    assert_ne!(icon_for_entry(false, "/p/x.rs"), icon_for_entry(false, "/p/x.txt"));
}

#[test]
fn going_up_reads_the_parent() {
    let mut s = state_in("/home/me");
    assert!(matches!(s.go_parent(), Request::ChangeDir(p) if p == "/home"));
    let mut top = state_in("/");
    assert!(matches!(top.go_parent(), Request::Idle));
}

#[test]
fn paths_compare_by_component() {
    let mut set = vec!["/a/b".to_string()];
    assert!(contains_path(&set, "/a//b"));
    assert!(contains_path(&set, "/a/b/"));
    assert!(!contains_path(&set, "/a/c"));
    insert_path(&mut set, "/a//b".to_string());
    assert_eq!(set.len(), 1);
    insert_path(&mut set, "/a/c".to_string());
    assert_eq!(set.len(), 2);
    remove_path(&mut set, "/a/b/");
    assert_eq!(set, vec!["/a/c".to_string()]);
}
