use chatak::commands::Action;
use chatak::input::{handle_event, InputEvent, KeyCode, MouseKind};
use chatak::preview::{build_preview, text_snippet, PreviewSource};
use chatak::state::{PaneAreas, PaneKind, Rect};

fn key(code: KeyCode) -> InputEvent {
    InputEvent::Key { code, press: true }
}

fn areas() -> PaneAreas {
    PaneAreas {
        bookmarks: Rect { x: 0, y: 0, width: 10, height: 10 },
        middle: Rect { x: 10, y: 0, width: 20, height: 10 },
        preview: Rect { x: 30, y: 0, width: 10, height: 10 },
        status: Rect { x: 0, y: 10, width: 40, height: 1 },
    }
}

#[test]
fn normal_key_bindings() {
    assert_eq!(handle_event(key(KeyCode::Char('q')), false, false, None), Some(Action::Quit));
    assert_eq!(handle_event(key(KeyCode::Char('j')), false, false, None), Some(Action::MoveDown));
    assert_eq!(handle_event(key(KeyCode::Up), false, false, None), Some(Action::MoveUp));
    assert_eq!(handle_event(key(KeyCode::Enter), false, false, None), Some(Action::Enter));
    assert_eq!(handle_event(key(KeyCode::Backspace), false, false, None), Some(Action::UpDir));
    assert_eq!(handle_event(key(KeyCode::Char(' ')), false, false, None), Some(Action::ToggleExpand));
    assert_eq!(handle_event(key(KeyCode::Char('N')), false, false, None), Some(Action::PromptCreateDir));
    assert_eq!(handle_event(key(KeyCode::Char('D')), false, false, None), Some(Action::DeleteSelection));
    assert_eq!(handle_event(key(KeyCode::Esc), false, false, None), Some(Action::ClearSearch));
    assert_eq!(handle_event(key(KeyCode::BackTab), false, false, None), Some(Action::FocusPrev));
    assert_eq!(handle_event(key(KeyCode::Char('Z')), false, false, None), None);
    assert_eq!(handle_event(key(KeyCode::Other), false, false, None), None);
}

#[test]
fn prompt_keys_type_text() {
    assert_eq!(handle_event(key(KeyCode::Char('q')), true, false, None), Some(Action::PromptChar('q')));
    assert_eq!(handle_event(key(KeyCode::Enter), true, false, None), Some(Action::PromptConfirm));
    assert_eq!(handle_event(key(KeyCode::Esc), true, false, None), Some(Action::PromptCancel));
    assert_eq!(handle_event(key(KeyCode::Backspace), true, false, None), Some(Action::PromptBackspace));
    assert_eq!(handle_event(key(KeyCode::Tab), true, false, None), None);
    assert_eq!(handle_event(key(KeyCode::Char('?')), true, false, None), Some(Action::ToggleHelp));
}

#[test]
fn help_overlay_takes_only_its_keys() {
    assert_eq!(handle_event(key(KeyCode::Char('?')), false, true, None), Some(Action::ToggleHelp));
    assert_eq!(handle_event(key(KeyCode::Esc), true, true, None), Some(Action::ToggleHelp));
    assert_eq!(handle_event(key(KeyCode::Char('q')), false, true, None), None);
}

#[test]
fn key_releases_do_nothing() {
    let ev = InputEvent::Key { code: KeyCode::Char('q'), press: false };
    assert_eq!(handle_event(ev, false, false, None), None);
}

#[test]
fn the_wheel_scrolls_the_pane_under_the_mouse() {
    let up = InputEvent::Mouse { kind: MouseKind::ScrollUp, column: 12, row: 3 };
    assert_eq!(handle_event(up, false, false, Some(areas())), Some(Action::ScrollUp(PaneKind::Middle)));
    let down = InputEvent::Mouse { kind: MouseKind::ScrollDown, column: 35, row: 9 };
    assert_eq!(handle_event(down, false, false, Some(areas())), Some(Action::ScrollDown(PaneKind::Preview)));
    let status = InputEvent::Mouse { kind: MouseKind::ScrollDown, column: 5, row: 10 };
    assert_eq!(handle_event(status, false, false, Some(areas())), None);
    assert_eq!(handle_event(up, false, false, None), None);
    let click = InputEvent::Mouse { kind: MouseKind::Other, column: 1, row: 1 };
    assert_eq!(handle_event(click, false, false, Some(areas())), None);
    assert_eq!(areas().pane_at(0, 0), Some(PaneKind::Bookmarks));
    assert_eq!(areas().pane_at(40, 0), None);
}

#[test]
fn snippets() {
    assert_eq!(text_snippet(&b"one\r\ntwo\nthree".to_vec(), 100, 40), "one\ntwo\nthree");
    assert_eq!(text_snippet(&b"one\ntwo\nthree".to_vec(), 100, 2), "one\ntwo");
    assert_eq!(text_snippet(&b"abcdef".to_vec(), 3, 40), "abc");
    assert_eq!(text_snippet(&Vec::new(), 100, 40), "[empty file]");
    assert_eq!(text_snippet(&vec![0xff, 0xfe, 0x00], 100, 40), "[binary file]");
    // A multi-byte character cut by the byte limit makes the head invalid UTF-8.
    assert_eq!(text_snippet(&"é".as_bytes().to_vec(), 1, 40), "[binary file]");
    assert_eq!(text_snippet(&b"\n\nx".to_vec(), 100, 40), "\n\nx");
}

#[test]
fn previews_of_directories_and_files() {
    let d = build_preview("/home/me/docs", &PreviewSource::Directory { entry_count: 12 }, 8192, 40);
    assert_eq!(d, "Directory\ndocs\nEntries: 12");
    let f = build_preview(
        "/home/me/a.txt",
        &PreviewSource::File { size: 5, modified: Some("2024-01-02 03:04:05".to_string()), bytes: b"hi\nyo".to_vec() },
        8192,
        40,
    );
    assert_eq!(f, "File\na.txt\nSize: 5\nModified: 2024-01-02 03:04:05\n\nhi\nyo");
    let g = build_preview("/x/b", &PreviewSource::File { size: 0, modified: None, bytes: vec![] }, 8192, 40);
    assert_eq!(g, "File\nb\nSize: 0\nModified: unknown\n\n[empty file]");
}
