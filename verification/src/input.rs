//! From terminal events to actions: the key bindings.
use vstd::prelude::*;
use crate::commands::Action;
use crate::state::PaneAreas;

verus! {

/// A key, as far as the bindings tell keys apart.
#[derive(Debug, Clone, Copy, PartialEq, Eq, Structural)]
pub enum KeyCode {
    Char(char),
    Enter,
    Esc,
    Backspace,
    Up,
    Down,
    Left,
    Right,
    Tab,
    BackTab,
    Other,
}

/// What the mouse did, as far as the bindings tell it apart.
#[derive(Debug, Clone, Copy, PartialEq, Eq, Structural)]
pub enum MouseKind {
    ScrollUp,
    ScrollDown,
    Other,
}

/// A terminal event: a key (pressed, or released or repeated), the mouse at a cell, or
/// anything else.
#[derive(Debug, Clone, Copy, PartialEq, Eq, Structural)]
pub enum InputEvent {
    Key { code: KeyCode, press: bool },
    Mouse { kind: MouseKind, column: u16, row: u16 },
    Other,
}

/// The action bound to a key outside the prompt and the help overlay.
pub open spec fn normal_key_action(code: KeyCode) -> Option<Action> {
    match code {
        KeyCode::Char(c) => if c == 'q' {
            Some(Action::Quit)
        } else if c == 'j' {
            Some(Action::MoveDown)
        } else if c == 'k' {
            Some(Action::MoveUp)
        } else if c == 'l' {
            Some(Action::Enter)
        } else if c == 'h' {
            Some(Action::UpDir)
        } else if c == ' ' {
            Some(Action::ToggleExpand)
        } else if c == '1' {
            Some(Action::ViewTree)
        } else if c == '2' {
            Some(Action::ViewList)
        } else if c == '3' {
            Some(Action::ViewColumns)
        } else if c == 'v' {
            Some(Action::CycleView)
        } else if c == 'n' {
            Some(Action::PromptCreateFile)
        } else if c == 'N' {
            Some(Action::PromptCreateDir)
        } else if c == 'r' {
            Some(Action::PromptRename)
        } else if c == 'm' {
            Some(Action::PromptMove)
        } else if c == 'c' {
            Some(Action::PromptCopy)
        } else if c == 'd' {
            Some(Action::PromptDelete)
        } else if c == 'b' {
            Some(Action::AddBookmark)
        } else if c == 'B' {
            Some(Action::RemoveBookmark)
        } else if c == ']' {
            Some(Action::BookmarkNext)
        } else if c == '[' {
            Some(Action::BookmarkPrev)
        } else if c == 'g' {
            Some(Action::BookmarkOpen)
        } else if c == '/' {
            Some(Action::PromptSearch)
        } else if c == 'X' {
            Some(Action::ClearSearch)
        } else if c == '?' {
            Some(Action::ToggleHelp)
        } else if c == 's' {
            Some(Action::ToggleSelect)
        } else if c == 'A' {
            Some(Action::SelectAll)
        } else if c == 'u' {
            Some(Action::ClearSelection)
        } else if c == 'y' {
            Some(Action::CopySelection)
        } else if c == 'x' {
            Some(Action::CutSelection)
        } else if c == 'p' {
            Some(Action::PasteSelection)
        } else if c == 'D' {
            Some(Action::DeleteSelection)
        } else if c == 'o' {
            Some(Action::OpenSelected)
        } else {
            None
        },
        KeyCode::Down => Some(Action::MoveDown),
        KeyCode::Up => Some(Action::MoveUp),
        KeyCode::Right | KeyCode::Enter => Some(Action::Enter),
        KeyCode::Left | KeyCode::Backspace => Some(Action::UpDir),
        KeyCode::Esc => Some(Action::ClearSearch),
        KeyCode::Tab => Some(Action::FocusNext),
        KeyCode::BackTab => Some(Action::FocusPrev),
        KeyCode::Other => None,
    }
}

/// The action bound to a key while the prompt is open: confirm, cancel, erase, or type;
/// `?` opens the help, as it does at any time (the prompt stays open behind it).
pub open spec fn prompt_key_action(code: KeyCode) -> Option<Action> {
    match code {
        KeyCode::Enter => Some(Action::PromptConfirm),
        KeyCode::Esc => Some(Action::PromptCancel),
        KeyCode::Backspace => Some(Action::PromptBackspace),
        KeyCode::Char(c) => if c == '?' {
            Some(Action::ToggleHelp)
        } else {
            Some(Action::PromptChar(c))
        },
        _ => None,
    }
}

/// The action for an event: with the help open only `?` and `Esc` do anything (they close
/// it); with the prompt open its keys; otherwise the normal bindings; the mouse wheel
/// scrolls the pane under the mouse. Key releases and repeats do nothing.
pub open spec fn spec_handle_event(
    event: InputEvent,
    in_prompt: bool,
    help_open: bool,
    areas: Option<PaneAreas>,
) -> Option<Action> {
    match event {
        InputEvent::Key { code, press } => if !press {
            None
        } else if help_open {
            if code == KeyCode::Char('?') || code == KeyCode::Esc {
                Some(Action::ToggleHelp)
            } else {
                None
            }
        } else if in_prompt {
            prompt_key_action(code)
        } else {
            normal_key_action(code)
        },
        InputEvent::Mouse { kind, column, row } => match areas {
            None => None,
            Some(a) => match a.spec_pane_at(column, row) {
                None => None,
                Some(pane) => match kind {
                    MouseKind::ScrollUp => Some(Action::ScrollUp(pane)),
                    MouseKind::ScrollDown => Some(Action::ScrollDown(pane)),
                    MouseKind::Other => None,
                },
            },
        },
        InputEvent::Other => None,
    }
}

fn char_action(c: char) -> (r: Option<Action>)
    ensures
        r == normal_key_action(KeyCode::Char(c)),
{
    match c {
        'q' => Some(Action::Quit),
        'j' => Some(Action::MoveDown),
        'k' => Some(Action::MoveUp),
        'l' => Some(Action::Enter),
        'h' => Some(Action::UpDir),
        ' ' => Some(Action::ToggleExpand),
        '1' => Some(Action::ViewTree),
        '2' => Some(Action::ViewList),
        '3' => Some(Action::ViewColumns),
        'v' => Some(Action::CycleView),
        'n' => Some(Action::PromptCreateFile),
        'N' => Some(Action::PromptCreateDir),
        'r' => Some(Action::PromptRename),
        'm' => Some(Action::PromptMove),
        'c' => Some(Action::PromptCopy),
        'd' => Some(Action::PromptDelete),
        'b' => Some(Action::AddBookmark),
        'B' => Some(Action::RemoveBookmark),
        ']' => Some(Action::BookmarkNext),
        '[' => Some(Action::BookmarkPrev),
        'g' => Some(Action::BookmarkOpen),
        '/' => Some(Action::PromptSearch),
        'X' => Some(Action::ClearSearch),
        '?' => Some(Action::ToggleHelp),
        's' => Some(Action::ToggleSelect),
        'A' => Some(Action::SelectAll),
        'u' => Some(Action::ClearSelection),
        'y' => Some(Action::CopySelection),
        'x' => Some(Action::CutSelection),
        'p' => Some(Action::PasteSelection),
        'D' => Some(Action::DeleteSelection),
        'o' => Some(Action::OpenSelected),
        _ => None,
    }
}

/// The action for a terminal event (see `spec_handle_event`).
pub fn handle_event(event: InputEvent, in_prompt: bool, help_open: bool, areas: Option<PaneAreas>) -> (r:
    Option<Action>)
    ensures
        r == spec_handle_event(event, in_prompt, help_open, areas),
{
    match event {
        InputEvent::Key { code, press } => {
            if !press {
                return None;
            }
            if help_open {
                return match code {
                    KeyCode::Char('?') | KeyCode::Esc => Some(Action::ToggleHelp),
                    _ => None,
                };
            }
            if in_prompt {
                match code {
                    KeyCode::Enter => Some(Action::PromptConfirm),
                    KeyCode::Esc => Some(Action::PromptCancel),
                    KeyCode::Backspace => Some(Action::PromptBackspace),
                    KeyCode::Char('?') => Some(Action::ToggleHelp),
                    KeyCode::Char(ch) => Some(Action::PromptChar(ch)),
                    _ => None,
                }
            } else {
                match code {
                    KeyCode::Char(c) => char_action(c),
                    KeyCode::Down => Some(Action::MoveDown),
                    KeyCode::Up => Some(Action::MoveUp),
                    KeyCode::Right | KeyCode::Enter => Some(Action::Enter),
                    KeyCode::Left | KeyCode::Backspace => Some(Action::UpDir),
                    KeyCode::Esc => Some(Action::ClearSearch),
                    KeyCode::Tab => Some(Action::FocusNext),
                    KeyCode::BackTab => Some(Action::FocusPrev),
                    KeyCode::Other => None,
                }
            }
        },
        InputEvent::Mouse { kind, column, row } => {
            let pane = match areas {
                Some(a) => a.pane_at(column, row),
                None => None,
            };
            match pane {
                None => None,
                Some(p) => match kind {
                    MouseKind::ScrollUp => Some(Action::ScrollUp(p)),
                    MouseKind::ScrollDown => Some(Action::ScrollDown(p)),
                    MouseKind::Other => None,
                },
            }
        },
        InputEvent::Other => None,
    }
}

} // verus!
