use chatak::config::{config_path_from, default_config, find_opener, opener_args, Opener};
use chatak::entries::FileEntry;
use chatak::labels::{icon_for_entry, truncate_title, view_mode_label, ViewMode};
use chatak::rows::{highlighted_row, list_item_label, pane_title, preview_content, status_line, tree_item_label};
use chatak::tree::TreeEntry;

fn strings(v: &[&str]) -> Vec<String> {
    v.iter().map(|s| s.to_string()).collect()
}

#[test]
fn default_config_has_three_openers() {
    let c = default_config();
    assert!(c.bookmarks.is_empty());
    assert_eq!(c.last_dir, None);
    assert_eq!(c.openers.len(), 3);
    assert_eq!(c.openers[0].name, "pdf");
    assert_eq!(c.openers[0].command, "zathura");
    assert_eq!(c.openers[1].name, "images");
    assert_eq!(c.openers[1].extensions, strings(&["png", "jpg", "jpeg", "gif", "webp", "bmp", "svg", "ico"]));
    assert_eq!(c.openers[2].command, "nvim");
    assert_eq!(c.openers[2].extensions.len(), 33);
    assert_eq!(c.openers[2].args, strings(&["{path}"]));
}

#[test]
fn openers_are_found_by_extension_ignoring_case() {
    let c = default_config();
    assert_eq!(find_opener(&c.openers, "/x/photo.JPG").unwrap().name, "images");
    assert_eq!(find_opener(&c.openers, "/x/main.rs").unwrap().name, "text");
    assert!(find_opener(&c.openers, "/x/Makefile").is_none());
    assert!(find_opener(&c.openers, "/x/archive.tar.zst").is_none());
    assert!(find_opener(&c.openers, "/x/trailing.").is_none());
}

#[test]
fn the_first_matching_opener_wins() {
    let openers = vec![
        Opener { name: "one".into(), extensions: strings(&["md"]), command: "a".into(), args: vec![] },
        Opener { name: "two".into(), extensions: strings(&["MD"]), command: "b".into(), args: vec![] },
    ];
    assert_eq!(find_opener(&openers, "/n.md").unwrap().name, "one");
}

#[test]
fn opener_arguments_take_the_path() {
    assert_eq!(opener_args(&vec![], "/a b.pdf"), strings(&["/a b.pdf"]));
    assert_eq!(
        opener_args(&strings(&["--fork", "{path}", "-x"]), "/f.txt"),
        strings(&["--fork", "/f.txt", "-x"])
    );
    assert_eq!(opener_args(&strings(&["{path}", "{path}"]), "/f"), strings(&["/f", "/f"]));
    assert_eq!(opener_args(&strings(&["--file={path}"]), "/f.txt"), strings(&["--file=/f.txt"]));
    assert_eq!(opener_args(&strings(&["{path}:{path}", "{pat}{path}}"]), "/x"), strings(&["/x:/x", "{pat}/x}"]));
    assert_eq!(opener_args(&strings(&["{{path}"]), "{path}"), strings(&["{{path}"]));
}

#[test]
fn config_file_location() {
    assert_eq!(config_path_from(Some("/xdg".into()), Some("/home/me".into())), "/xdg/chatak/config.json");
    assert_eq!(config_path_from(None, Some("/home/me".into())), "/home/me/.config/chatak/config.json");
    assert_eq!(config_path_from(None, None), "./.config/chatak/config.json");
}

#[test]
fn titles_are_cut_from_the_left() {
    assert_eq!(truncate_title("/home/me/projects", 40), "/home/me/projects");
    assert_eq!(truncate_title("/home/me/projects", 12), "...rojects");
    assert_eq!(truncate_title("/home/me/projects", 5), "...");
    assert_eq!(truncate_title("/home/me/projects", 4), "..");
    assert_eq!(truncate_title("/home/me/projects", 2), "/home/me/projects");
    assert_eq!(truncate_title("/home/me/projects", 0), "/home/me/projects");
}

#[test]
fn view_labels() {
    assert_eq!(view_mode_label(ViewMode::Tree), "Tree");
    assert_eq!(view_mode_label(ViewMode::List), "List");
    assert_eq!(view_mode_label(ViewMode::Columns), "Columns");
}

#[test]
fn icons_by_name_and_extension() {
    assert_eq!(icon_for_entry(true, "/p/.git"), "\u{f02a2}");
    assert_eq!(icon_for_entry(true, "/p/src"), "\u{f0219}");
    assert_eq!(icon_for_entry(true, "/p/other"), "\u{e5ff}");
    assert_eq!(icon_for_entry(true, "/"), "\u{e5ff}");
    assert_eq!(icon_for_entry(false, "/p/Cargo.toml"), "\u{f03d7}");
    assert_eq!(icon_for_entry(false, "/p/lib.RS"), "\u{e7a8}");
    assert_eq!(icon_for_entry(false, "/p/notes"), "\u{f0219}");
    assert_eq!(icon_for_entry(false, "/p/photo.jpeg"), icon_for_entry(false, "/p/photo.PNG"));
}

#[test]
fn row_labels() {
    let dir = TreeEntry { path: "/p/src".into(), depth: 2, is_dir: true, is_expanded: false };
    assert_eq!(tree_item_label(&dir), format!("    [+] {} src/", "\u{f0219}"));
    let open = TreeEntry { path: "/p/x".into(), depth: 0, is_dir: true, is_expanded: true };
    assert_eq!(tree_item_label(&open), format!("[-] {} x/", "\u{e5ff}"));
    let file = TreeEntry { path: "/p/a.md".into(), depth: 1, is_dir: false, is_expanded: false };
    assert_eq!(tree_item_label(&file), format!("      {} a.md", icon_for_entry(false, "/p/a.md")));
    let entry = FileEntry { path: "/p/docs".into(), is_dir: true };
    assert_eq!(list_item_label(&entry), format!("{} docs/", "\u{f0219}"));
}

#[test]
fn middle_pane_title() {
    assert_eq!(pane_title("/home", ViewMode::List, 40), " /home \u{b7} List ");
    assert_eq!(pane_title("/home/me/long/path", ViewMode::Tree, 14), "...h \u{b7} Tree ");
}

#[test]
fn highlighted_rows_stay_in_the_list() {
    assert_eq!(highlighted_row(3, 0), None);
    assert_eq!(highlighted_row(1, 4), Some(1));
    assert_eq!(highlighted_row(9, 4), Some(3));
}

#[test]
fn preview_pane_fits_lines_to_its_width() {
    assert_eq!(preview_content("", 20), "No selection");
    assert_eq!(preview_content("abc", 2), "");
    assert_eq!(preview_content("a\tb\nlong line here", 8), "a    b\nlong l");
    assert_eq!(preview_content("x\r\ny\n", 10), "x\ny");
}

#[test]
fn status_line_shows_prompt_status_or_hint() {
    let (mut s, _) = chatak::state::AppState::new(
        default_config(),
        chatak::tree::DirListing { dir: "/r".into(), entries: Ok(vec![]) },
    )
    .unwrap();
    assert_eq!(
        status_line(&s),
        "tab pane | j/k move | s select | y/x/p copy/cut/paste | D delete sel | / search"
    );
    s.status = "copied".into();
    assert_eq!(status_line(&s), "copied");
    s.start_prompt(chatak::state::PromptKind::Move);
    s.push_prompt_char('d');
    assert_eq!(status_line(&s), "Move to: d");
}
