use chatak::commands::{apply_action, Action};
use chatak::config::default_config;
use chatak::input::{handle_event, InputEvent, KeyCode};
use chatak::entries::FileEntry;
use chatak::labels::ViewMode;
use chatak::requests::{Effect, Request, TreeWork};
use chatak::state::{AppState, FocusPane, PaneAreas, PaneKind, PromptKind, Rect};
use chatak::tree::DirListing;

fn e(path: &str, is_dir: bool) -> FileEntry {
    FileEntry { path: path.to_string(), is_dir }
}

fn listing(dir: &str, entries: Vec<FileEntry>) -> DirListing {
    DirListing { dir: dir.to_string(), entries: Ok(entries) }
}

fn root_entries() -> Vec<FileEntry> {
    vec![
        e("/r/docs", true),
        e("/r/src", true),
        e("/r/README.md", false),
        e("/r/report.PDF", false),
        e("/r/zz.unknown", false),
    ]
}

fn start() -> AppState {
    let (s, req) = AppState::new(default_config(), listing("/r", root_entries())).unwrap();
    assert!(matches!(req, Request::Sync { columns: false, save: false }));
    s
}

fn type_text(s: &mut AppState, text: &str) {
    for c in text.chars() {
        assert!(matches!(apply_action(s, Action::PromptChar(c)), Request::Idle));
    }
}

#[test]
fn starts_in_the_tree_view_on_the_root() {
    let s = start();
    assert_eq!(s.current_dir, "/r");
    assert_eq!(s.view_mode, ViewMode::Tree);
    assert_eq!(s.focus, FocusPane::Middle);
    assert_eq!(s.tree_entries.len(), 6);
    assert_eq!(s.tree_entries[0].path, "/r");
    assert_eq!(s.tree_entries[0].depth, 0);
    assert_eq!(s.tree_entries[1].depth, 1);
    assert_eq!(s.visible_tree, vec![0, 1, 2, 3, 4, 5]);
    assert_eq!(s.visible_entries, vec![0, 1, 2, 3, 4]);
    assert_eq!(s.selected_path(), Some(("/r".to_string(), true)));
    assert_eq!(s.expanded, vec!["/r".to_string()]);
}

#[test]
fn new_reports_an_unreadable_directory() {
    let r = AppState::new(
        default_config(),
        DirListing { dir: "/gone".to_string(), entries: Err("No such file or directory".to_string()) },
    );
    assert_eq!(r.err(), Some("No such file or directory".to_string()));
}

#[test]
fn moving_down_and_up_in_the_middle_pane() {
    let mut s = start();
    assert!(matches!(apply_action(&mut s, Action::MoveUp), Request::Idle));
    assert_eq!(s.selection, 0);
    assert!(matches!(apply_action(&mut s, Action::MoveDown), Request::Sync { columns: true, save: false }));
    assert_eq!(s.selection, 1);
    for _ in 0..10 {
        apply_action(&mut s, Action::MoveDown);
    }
    assert_eq!(s.selection, 5);
    assert!(matches!(apply_action(&mut s, Action::MoveUp), Request::Sync { columns: true, save: false }));
    assert_eq!(s.selection, 4);
}

#[test]
fn focus_cycles_through_the_three_panes() {
    let mut s = start();
    apply_action(&mut s, Action::FocusNext);
    assert_eq!(s.focus, FocusPane::Preview);
    apply_action(&mut s, Action::FocusNext);
    assert_eq!(s.focus, FocusPane::Bookmarks);
    apply_action(&mut s, Action::FocusNext);
    assert_eq!(s.focus, FocusPane::Middle);
    apply_action(&mut s, Action::FocusPrev);
    assert_eq!(s.focus, FocusPane::Bookmarks);
}

#[test]
fn view_modes_cycle_and_the_tree_is_reread() {
    let mut s = start();
    assert!(matches!(apply_action(&mut s, Action::CycleView), Request::Sync { columns: true, save: false }));
    assert_eq!(s.view_mode, ViewMode::List);
    assert!(matches!(apply_action(&mut s, Action::CycleView), Request::Sync { columns: true, save: false }));
    assert_eq!(s.view_mode, ViewMode::Columns);
    let r = apply_action(&mut s, Action::CycleView);
    assert!(matches!(r, Request::ReadTree(TreeWork::ViewMode)));
    assert_eq!(s.view_mode, ViewMode::Tree);
    assert_eq!(s.tree_dirs(), vec!["/r".to_string(), "/r".to_string()]);
    let r = s.finish_tree(TreeWork::ViewMode, vec![listing("/r", root_entries())]);
    assert!(matches!(r, Request::Sync { columns: true, save: false }));
    assert_eq!(s.tree_entries.len(), 6);
}

#[test]
fn expanding_a_directory_rebuilds_the_tree_below_it() {
    let mut s = start();
    apply_action(&mut s, Action::MoveDown);
    assert_eq!(s.selected_path(), Some(("/r/docs".to_string(), true)));
    let r = apply_action(&mut s, Action::ToggleExpand);
    assert!(matches!(r, Request::ReadTree(TreeWork::Expand)));
    assert_eq!(s.expanded, vec!["/r".to_string(), "/r/docs".to_string()]);
    let r = s.finish_tree(
        TreeWork::Expand,
        vec![listing("/r", root_entries()), listing("/r/docs", vec![e("/r/docs/guide.md", false)])],
    );
    assert!(matches!(r, Request::Sync { columns: false, save: false }));
    assert_eq!(s.tree_entries.len(), 7);
    assert_eq!(s.tree_entries[2].path, "/r/docs/guide.md");
    assert_eq!(s.tree_entries[2].depth, 2);
    assert!(s.tree_entries[1].is_expanded);
    // Collapsing it again.
    let r = apply_action(&mut s, Action::ToggleExpand);
    assert!(matches!(r, Request::ReadTree(TreeWork::Expand)));
    assert_eq!(s.expanded, vec!["/r".to_string()]);
}

#[test]
fn the_root_row_does_not_collapse() {
    let mut s = start();
    assert!(matches!(apply_action(&mut s, Action::ToggleExpand), Request::Idle));
}

#[test]
fn search_filters_by_name_ignoring_case() {
    let mut s = start();
    apply_action(&mut s, Action::PromptSearch);
    type_text(&mut s, "  RE ");
    let r = apply_action(&mut s, Action::PromptConfirm);
    assert!(matches!(r, Request::SyncThenRefresh));
    assert!(s.prompt.is_none());
    assert_eq!(s.search_query, "RE");
    assert_eq!(s.status, "search: RE");
    assert_eq!(s.visible_entries, vec![2, 3]);
    // The tree keeps the root, which leads to the matches.
    assert_eq!(s.visible_tree, vec![0, 3, 4]);
    let r = apply_action(&mut s, Action::ClearSearch);
    assert!(matches!(r, Request::Sync { columns: true, save: false }));
    assert_eq!(s.status, "search cleared");
    assert_eq!(s.visible_entries.len(), 5);
    assert!(matches!(apply_action(&mut s, Action::ClearSearch), Request::Idle));
}

#[test]
fn search_prompt_starts_from_the_current_query() {
    let mut s = start();
    s.search_query = "doc".to_string();
    apply_action(&mut s, Action::PromptSearch);
    assert_eq!(s.prompt.as_ref().unwrap().input, "doc");
    apply_action(&mut s, Action::PromptBackspace);
    assert_eq!(s.prompt.as_ref().unwrap().input, "do");
    apply_action(&mut s, Action::PromptCancel);
    assert!(s.prompt.is_none());
    assert_eq!(s.search_query, "doc");
}

#[test]
fn toggling_selection_twice_restores_it() {
    let mut s = start();
    apply_action(&mut s, Action::MoveDown);
    apply_action(&mut s, Action::ToggleSelect);
    assert_eq!(s.selected_items, vec!["/r/docs".to_string()]);
    apply_action(&mut s, Action::ToggleSelect);
    assert!(s.selected_items.is_empty());
}

#[test]
fn select_all_then_clear() {
    let mut s = start();
    apply_action(&mut s, Action::SelectAll);
    assert_eq!(s.selected_items.len(), 6);
    apply_action(&mut s, Action::ClearSelection);
    assert!(s.selected_items.is_empty());
}

#[test]
fn copying_with_nothing_selected_takes_the_cursor_entry() {
    let mut s = start();
    apply_action(&mut s, Action::MoveDown);
    apply_action(&mut s, Action::MoveDown);
    apply_action(&mut s, Action::MoveDown);
    apply_action(&mut s, Action::CopySelection);
    assert_eq!(s.status, "copied");
    assert_eq!(s.clipboard.items, vec!["/r/README.md".to_string()]);
    assert!(!s.clipboard.cut);
}

#[test]
fn pasting_cut_items_moves_them_and_empties_the_clipboard() {
    let mut s = start();
    s.clipboard.items = vec!["/other/a.txt".to_string(), "/other/b".to_string()];
    s.clipboard.cut = true;
    let r = apply_action(&mut s, Action::PasteSelection);
    let Request::Perform(effect) = r else { panic!("expected an effect") };
    assert!(matches!(&effect, Effect::PasteMove { index: 0, from, to } if from == "/other/a.txt" && to == "/r/a.txt"));
    let r = s.effect_done(effect, Ok(()));
    let Request::Perform(effect) = r else { panic!("expected an effect") };
    assert!(matches!(&effect, Effect::PasteMove { index: 1, from, to } if from == "/other/b" && to == "/r/b"));
    let r = s.effect_done(effect, Ok(()));
    assert!(matches!(r, Request::Refresh { save: false }));
    assert_eq!(s.status, "pasted 2");
    assert!(s.clipboard.items.is_empty());
    assert!(!s.clipboard.cut);
}

#[test]
fn a_failed_paste_stops_with_the_error() {
    let mut s = start();
    s.clipboard.items = vec!["/other/a.txt".to_string()];
    let Request::Perform(effect) = apply_action(&mut s, Action::PasteSelection) else { panic!() };
    assert!(matches!(&effect, Effect::PasteCopy { .. }));
    let r = s.effect_done(effect, Err("disk full".to_string()));
    assert!(matches!(r, Request::Idle));
    assert_eq!(s.status, "disk full");
    assert_eq!(s.clipboard.items.len(), 1);
}

#[test]
fn paste_with_an_empty_clipboard() {
    let mut s = start();
    assert!(matches!(apply_action(&mut s, Action::PasteSelection), Request::Idle));
    assert_eq!(s.status, "clipboard empty");
}

#[test]
fn delete_needs_a_y() {
    let mut s = start();
    apply_action(&mut s, Action::MoveDown);
    apply_action(&mut s, Action::PromptDelete);
    type_text(&mut s, "n");
    assert!(matches!(apply_action(&mut s, Action::PromptConfirm), Request::Refresh { save: true }));
    assert_eq!(s.status, "delete cancelled");
    apply_action(&mut s, Action::ToggleSelect);
    apply_action(&mut s, Action::PromptDelete);
    type_text(&mut s, " y ");
    let Request::Perform(effect) = apply_action(&mut s, Action::PromptConfirm) else { panic!() };
    assert!(matches!(&effect, Effect::Delete(p) if p == "/r/docs"));
    let r = s.effect_done(effect, Ok(()));
    assert!(matches!(r, Request::Refresh { save: true }));
    assert_eq!(s.status, "deleted /r/docs");
    assert!(s.selected_items.is_empty());
}

#[test]
fn deleting_the_selection_goes_item_by_item() {
    let mut s = start();
    s.selected_items = vec!["/r/docs".to_string(), "/r/src".to_string()];
    apply_action(&mut s, Action::DeleteSelection);
    assert_eq!(s.prompt.as_ref().unwrap().kind, PromptKind::DeleteSelection);
    type_text(&mut s, "y");
    let Request::Perform(effect) = apply_action(&mut s, Action::PromptConfirm) else { panic!() };
    assert!(matches!(&effect, Effect::DeleteSelected(p) if p == "/r/docs"));
    let Request::Perform(effect) = s.effect_done(effect, Ok(())) else { panic!() };
    assert!(matches!(&effect, Effect::DeleteSelected(p) if p == "/r/src"));
    let r = s.effect_done(effect, Ok(()));
    assert!(matches!(r, Request::Refresh { save: true }));
    assert_eq!(s.status, "deleted selection");
}

#[test]
fn deleting_an_empty_selection_is_refused() {
    let mut s = start();
    apply_action(&mut s, Action::DeleteSelection);
    type_text(&mut s, "y");
    assert!(matches!(apply_action(&mut s, Action::PromptConfirm), Request::Refresh { save: true }));
    assert_eq!(s.status, "no selection to delete");
}

#[test]
fn creating_needs_a_name_and_resolves_it_in_the_current_directory() {
    let mut s = start();
    apply_action(&mut s, Action::PromptCreateFile);
    assert!(matches!(apply_action(&mut s, Action::PromptConfirm), Request::Refresh { save: true }));
    assert_eq!(s.status, "create: name required");
    apply_action(&mut s, Action::PromptCreateFile);
    type_text(&mut s, "new.txt");
    let Request::Perform(effect) = apply_action(&mut s, Action::PromptConfirm) else { panic!() };
    assert!(matches!(&effect, Effect::CreateFile(p) if p == "/r/new.txt"));
    assert!(matches!(s.effect_done(effect, Ok(())), Request::Refresh { save: true }));
    assert_eq!(s.status, "created file /r/new.txt");
    apply_action(&mut s, Action::PromptCreateDir);
    type_text(&mut s, "/abs/dir");
    let Request::Perform(effect) = apply_action(&mut s, Action::PromptConfirm) else { panic!() };
    assert!(matches!(&effect, Effect::CreateDir(p) if p == "/abs/dir"));
    assert!(matches!(s.effect_done(effect, Err("File exists".to_string())), Request::Idle));
    assert_eq!(s.status, "File exists");
}

#[test]
fn moving_into_a_directory_keeps_the_name() {
    let mut s = start();
    apply_action(&mut s, Action::MoveDown);
    apply_action(&mut s, Action::MoveDown);
    apply_action(&mut s, Action::MoveDown);
    apply_action(&mut s, Action::PromptMove);
    type_text(&mut s, "docs");
    let Request::CheckDest { kind, source, dest } = apply_action(&mut s, Action::PromptConfirm) else { panic!() };
    assert_eq!(kind, PromptKind::Move);
    assert_eq!(source, "/r/README.md");
    assert_eq!(dest, "/r/docs");
    let Request::Perform(effect) = s.place_checked(kind, source.clone(), dest.clone(), true) else { panic!() };
    assert!(matches!(&effect, Effect::Move { from, to } if from == "/r/README.md" && to == "/r/docs/README.md"));
    assert!(matches!(s.effect_done(effect, Ok(())), Request::Refresh { save: true }));
    assert_eq!(s.status, "moved to /r/docs/README.md");
    let Request::Perform(effect) = s.place_checked(PromptKind::Copy, source, "/r/copy.md".to_string(), false) else { panic!() };
    assert!(matches!(&effect, Effect::Copy { to, .. } if to == "/r/copy.md"));
}

#[test]
fn rename_without_a_selection_is_refused() {
    let mut s = start();
    s.view_mode = ViewMode::List;
    s.visible_entries.clear();
    apply_action(&mut s, Action::PromptRename);
    type_text(&mut s, "x");
    assert!(matches!(apply_action(&mut s, Action::PromptConfirm), Request::Refresh { save: true }));
    assert_eq!(s.status, "rename: no selection");
}

#[test]
fn bookmarks_are_added_once_and_removed() {
    let mut s = start();
    apply_action(&mut s, Action::MoveDown);
    assert!(matches!(apply_action(&mut s, Action::AddBookmark), Request::Save));
    assert_eq!(s.status, "bookmark added");
    assert!(matches!(apply_action(&mut s, Action::AddBookmark), Request::Idle));
    assert_eq!(s.status, "bookmark already exists");
    apply_action(&mut s, Action::MoveDown);
    apply_action(&mut s, Action::AddBookmark);
    assert_eq!(s.bookmarks, vec!["/r/docs".to_string(), "/r/src".to_string()]);
    assert_eq!(s.bookmark_index, 1);
    apply_action(&mut s, Action::BookmarkPrev);
    assert_eq!(s.bookmark_index, 0);
    apply_action(&mut s, Action::BookmarkNext);
    apply_action(&mut s, Action::BookmarkNext);
    assert_eq!(s.bookmark_index, 1);
    assert!(matches!(apply_action(&mut s, Action::RemoveBookmark), Request::Save));
    assert_eq!(s.bookmarks, vec!["/r/docs".to_string()]);
    assert_eq!(s.bookmark_index, 0);
    apply_action(&mut s, Action::RemoveBookmark);
    assert!(s.bookmarks.is_empty());
    assert!(matches!(apply_action(&mut s, Action::RemoveBookmark), Request::Idle));
    assert_eq!(s.status, "no bookmarks");
    assert_eq!(s.config_to_save().bookmarks.len(), 0);
    assert_eq!(s.config_to_save().last_dir, Some("/r".to_string()));
}

#[test]
fn opening_a_bookmark_checks_it_is_a_directory() {
    let mut s = start();
    assert!(matches!(apply_action(&mut s, Action::BookmarkOpen), Request::Idle));
    assert_eq!(s.status, "no bookmark selected");
    s.bookmarks = vec!["/gone".to_string()];
    s.focus = FocusPane::Bookmarks;
    let Request::CheckBookmark(p) = apply_action(&mut s, Action::Enter) else { panic!() };
    assert_eq!(p, "/gone");
    assert!(matches!(s.open_bookmark_checked(p, false), Request::Idle));
    assert_eq!(s.status, "bookmark missing");
}

#[test]
fn entering_and_leaving_a_directory_restores_the_selection() {
    let mut s = start();
    s.view_mode = ViewMode::List;
    s.selection = 1;
    assert_eq!(s.selected_path(), Some(("/r/src".to_string(), true)));
    let Request::ChangeDir(p) = apply_action(&mut s, Action::Enter) else { panic!() };
    assert_eq!(p, "/r/src");
    let r = s.set_current_dir(listing("/r/src", vec![e("/r/src/lib.rs", false), e("/r/src/main.rs", false)]));
    assert!(matches!(r, Request::Sync { columns: true, save: true }));
    assert_eq!(s.current_dir, "/r/src");
    assert_eq!(s.selection, 0);
    assert_eq!(s.expanded, vec!["/r/src".to_string()]);
    s.selection = 1;
    let Request::ChangeDir(up) = apply_action(&mut s, Action::UpDir) else { panic!() };
    assert_eq!(up, "/r");
    s.set_current_dir(listing("/r", root_entries()));
    assert_eq!(s.selected_path(), Some(("/r/src".to_string(), true)));
    // Back down: the file selected there is selected again.
    let Request::ChangeDir(p) = apply_action(&mut s, Action::Enter) else { panic!() };
    s.set_current_dir(listing(&p, vec![e("/r/src/lib.rs", false), e("/r/src/main.rs", false)]));
    assert_eq!(s.selected_path(), Some(("/r/src/main.rs".to_string(), false)));
}

#[test]
fn a_failed_directory_read_is_reported() {
    let mut s = start();
    let r = s.set_current_dir(DirListing { dir: "/x".to_string(), entries: Err("Permission denied".to_string()) });
    assert!(matches!(r, Request::Idle));
    assert_eq!(s.status, "Permission denied");
    assert_eq!(s.current_dir, "/x");
}

#[test]
fn entering_a_file_does_nothing() {
    let mut s = start();
    s.view_mode = ViewMode::List;
    s.selection = 2;
    assert!(matches!(apply_action(&mut s, Action::Enter), Request::Idle));
    assert_eq!(s.current_dir, "/r");
}

#[test]
fn refresh_reports_a_directory_that_was_not_read() {
    let mut s = start();
    assert!(matches!(s.refresh_entries(Vec::new(), true), Request::Idle));
    assert_eq!(s.status, "directory was not read");
    let r = s.refresh_entries(vec![listing("/r", vec![e("/r/only", false)])], false);
    assert!(matches!(r, Request::Sync { columns: true, save: false }));
    assert_eq!(s.entries.len(), 1);
    assert_eq!(s.tree_entries.len(), 2);
}

#[test]
fn opening_files_by_extension() {
    let mut s = start();
    s.view_mode = ViewMode::List;
    s.selection = 3;
    let Request::Perform(Effect::Open { name, command, args }) = apply_action(&mut s, Action::OpenSelected) else {
        panic!()
    };
    assert_eq!(name, "pdf");
    assert_eq!(command, "zathura");
    assert_eq!(args, vec!["/r/report.PDF".to_string()]);
    assert!(matches!(
        s.effect_done(Effect::Open { name, command, args }, Ok(())),
        Request::Idle
    ));
    assert_eq!(s.status, "opened with pdf");
    s.selection = 4;
    assert!(matches!(apply_action(&mut s, Action::OpenSelected), Request::Idle));
    assert_eq!(s.status, "no opener configured");
    s.selection = 0;
    assert!(matches!(apply_action(&mut s, Action::OpenSelected), Request::Idle));
    assert_eq!(s.status, "cannot open directory");
}

#[test]
fn the_columns_pane_shows_the_selected_directory() {
    let mut s = start();
    apply_action(&mut s, Action::ViewColumns);
    assert_eq!(s.columns_request(), Some("/r/docs".to_string()));
    s.update_columns_preview(Some(vec![e("/r/docs/a", false)]));
    assert_eq!(s.columns_right_path, Some("/r/docs".to_string()));
    assert_eq!(s.columns_right.len(), 1);
    assert_eq!(s.columns_request(), None);
    s.selection = 2;
    assert_eq!(s.columns_request(), None);
    s.update_columns_preview(None);
    assert!(s.columns_right.is_empty());
    assert_eq!(s.columns_right_path, None);
}

#[test]
fn the_preview_follows_the_selection() {
    let mut s = start();
    assert_eq!(s.preview_request(), Some("/r".to_string()));
    s.update_preview(Ok("Directory\nr\nEntries: 5".to_string()));
    assert_eq!(s.preview_path, Some("/r".to_string()));
    assert_eq!(s.preview_request(), None);
    s.selection = 1;
    s.update_preview(Err("Permission denied".to_string()));
    assert_eq!(s.preview_text, "preview error: Permission denied");
    assert_eq!(s.preview_scroll, 0);
}

#[test]
fn the_preview_scrolls_within_its_text() {
    let mut s = start();
    let area = Rect { x: 0, y: 0, width: 10, height: 5 };
    s.pane_areas = Some(PaneAreas { bookmarks: area, middle: area, preview: area, status: area });
    s.preview_text = "1\n2\n3\n4\n5".to_string();
    s.focus = FocusPane::Preview;
    apply_action(&mut s, Action::MoveDown);
    apply_action(&mut s, Action::MoveDown);
    apply_action(&mut s, Action::MoveDown);
    assert_eq!(s.preview_scroll, 2);
    apply_action(&mut s, Action::MoveUp);
    assert_eq!(s.preview_scroll, 1);
    apply_action(&mut s, Action::ScrollDown(PaneKind::Middle));
    assert_eq!(s.focus, FocusPane::Middle);
    assert_eq!(s.selection, 1);
    apply_action(&mut s, Action::ScrollUp(PaneKind::Bookmarks));
    assert_eq!(s.focus, FocusPane::Bookmarks);
}

#[test]
fn help_and_quit() {
    let mut s = start();
    apply_action(&mut s, Action::ToggleHelp);
    assert!(s.help_open);
    apply_action(&mut s, Action::ToggleHelp);
    assert!(!s.help_open);
    assert!(matches!(apply_action(&mut s, Action::Quit), Request::Quit));
}

#[test]
fn typing_a_character_then_erasing_it_changes_nothing() {
    let mut s = start();
    apply_action(&mut s, Action::PromptCreateFile);
    type_text(&mut s, "ab");
    apply_action(&mut s, Action::PromptChar('z'));
    assert_eq!(s.prompt.as_ref().unwrap().input, "abz");
    apply_action(&mut s, Action::PromptBackspace);
    assert_eq!(s.prompt.as_ref().unwrap().input, "ab");
    assert_eq!(s.prompt.as_ref().unwrap().kind, PromptKind::CreateFile);
    apply_action(&mut s, Action::PromptBackspace);
    apply_action(&mut s, Action::PromptBackspace);
    apply_action(&mut s, Action::PromptBackspace);
    assert_eq!(s.prompt.as_ref().unwrap().input, "");
}

#[test]
fn search_ignores_case_beyond_ascii() {
    let entries = vec![e("/u/caf\u{e9}.txt", false), e("/u/CAF\u{c9}.md", false), e("/u/cafe", false)];
    let (mut s, _) = AppState::new(default_config(), listing("/u", entries)).unwrap();
    s.view_mode = ViewMode::List;
    apply_action(&mut s, Action::PromptSearch);
    type_text(&mut s, "Caf\u{c9}");
    apply_action(&mut s, Action::PromptConfirm);
    assert_eq!(s.visible_entries, vec![0, 1]);
    s.search_query = "\u{e9}".to_string();
    s.rebuild_visible();
    assert_eq!(s.visible_entries, vec![0, 1]);
    s.search_query = "\u{394}".to_string();
    s.rebuild_visible();
    assert!(s.visible_entries.is_empty());
    assert_eq!(s.selection, 0);
}

#[test]
fn help_opens_over_an_open_prompt() {
    let mut s = start();
    apply_action(&mut s, Action::PromptCreateFile);
    type_text(&mut s, "a");
    let action = handle_event(InputEvent::Key { code: KeyCode::Char('?'), press: true }, s.prompt.is_some(), s.help_open, None);
    assert_eq!(action, Some(Action::ToggleHelp));
    apply_action(&mut s, action.unwrap());
    assert!(s.help_open);
    assert_eq!(s.prompt.as_ref().unwrap().input, "a");
    let action = handle_event(InputEvent::Key { code: KeyCode::Char('x'), press: true }, s.prompt.is_some(), s.help_open, None);
    assert_eq!(action, None);
    let action = handle_event(InputEvent::Key { code: KeyCode::Esc, press: true }, s.prompt.is_some(), s.help_open, None);
    apply_action(&mut s, action.unwrap());
    assert!(!s.help_open);
    let action = handle_event(InputEvent::Key { code: KeyCode::Char('b'), press: true }, s.prompt.is_some(), s.help_open, None);
    apply_action(&mut s, action.unwrap());
    assert_eq!(s.prompt.as_ref().unwrap().input, "ab");
}

#[test]
fn going_back_up_in_the_tree_view_restores_the_selection() {
    let mut s = start();
    assert_eq!(s.view_mode, ViewMode::Tree);
    s.selection = 2;
    assert_eq!(s.selected_path(), Some(("/r/src".to_string(), true)));
    let Request::ChangeDir(p) = apply_action(&mut s, Action::Enter) else { panic!() };
    s.set_current_dir(listing(&p, vec![e("/r/src/lib.rs", false)]));
    assert_eq!(s.current_dir, "/r/src");
    let Request::ChangeDir(up) = apply_action(&mut s, Action::UpDir) else { panic!() };
    s.set_current_dir(listing(&up, root_entries()));
    assert_eq!(s.selection, 2);
    assert_eq!(s.selected_path(), Some(("/r/src".to_string(), true)));
}
