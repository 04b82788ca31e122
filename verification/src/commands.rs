//! The user's actions, and what each does to the state.
use vstd::prelude::*;
use crate::labels::ViewMode;
use crate::state::{AppState, FocusPane, PaneKind, PromptKind, next_index, post_select_next, post_select_prev,
    post_bookmark_next, post_bookmark_prev, post_focus_next, post_focus_prev, post_scroll_preview,
    post_scroll_bookmarks, post_toggle_help};
use crate::edits::{post_toggle_select, post_select_all, post_clear_selection, post_copy_selection,
    post_start_prompt, post_push_prompt_char, post_pop_prompt_char, post_add_bookmark, post_remove_bookmark};
use crate::flow::{post_set_view_mode, post_toggle_expand, post_enter_selected, post_go_parent, post_open_bookmark};
use crate::prompts::{post_confirm_prompt, post_paste_selection, post_open_selected, post_clear_search};
use crate::requests::Request;

verus! {

/// Something the user asked for, by key or mouse.
#[derive(Debug, Clone, Copy, PartialEq, Eq, Structural)]
pub enum Action {
    Quit,
    MoveUp,
    MoveDown,
    Enter,
    UpDir,
    ToggleExpand,
    ViewTree,
    ViewList,
    ViewColumns,
    CycleView,
    PromptCreateFile,
    PromptCreateDir,
    PromptRename,
    PromptMove,
    PromptCopy,
    PromptDelete,
    PromptChar(char),
    PromptBackspace,
    PromptConfirm,
    PromptCancel,
    PromptSearch,
    AddBookmark,
    RemoveBookmark,
    BookmarkNext,
    BookmarkPrev,
    BookmarkOpen,
    ClearSearch,
    FocusNext,
    FocusPrev,
    ToggleSelect,
    SelectAll,
    ClearSelection,
    CopySelection,
    CutSelection,
    PasteSelection,
    DeleteSelection,
    ScrollUp(PaneKind),
    ScrollDown(PaneKind),
    ToggleHelp,
    OpenSelected,
}

/// The view after `v`: tree, list, columns, and round again.
pub open spec fn spec_next_view(mode: ViewMode) -> ViewMode {
    match mode {
        ViewMode::Tree => ViewMode::List,
        ViewMode::List => ViewMode::Columns,
        ViewMode::Columns => ViewMode::Tree,
    }
}

/// Whether one step up in the current view moves the selection.
pub open spec fn moves_up(a: AppState) -> bool {
    a.view_len() > 0 && a.selection > 0
}

/// Whether one step down in the current view may move the selection.
pub open spec fn moves_down(a: AppState) -> bool {
    a.view_len() > 0
}

/// The work that follows a move of the selection: the side panes, where it moved.
pub open spec fn sync_if(moved: bool) -> Request {
    if moved { Request::Sync { columns: true, save: false } } else { Request::Idle }
}

/// `move_up` / `move_down`: one step in the focused pane.
pub open spec fn post_move(a: AppState, up: bool, b: AppState, r: Request) -> bool {
    match a.focus {
        FocusPane::Bookmarks => (if up { post_bookmark_prev(a, b) } else { post_bookmark_next(a, b) })
            && r is Idle,
        FocusPane::Middle => if up {
            post_select_prev(a, b, moves_up(a)) && r == sync_if(moves_up(a))
        } else {
            post_select_next(a, b, moves_down(a)) && r == sync_if(moves_down(a))
        },
        FocusPane::Preview => post_scroll_preview(a, up, b) && r is Idle,
    }
}

/// The selection after one step up: the previous row, or the first.
pub open spec fn prev_index(i: usize, len: nat) -> usize {
    if len == 0 || i == 0 { 0 } else { (i - 1) as usize }
}

/// `scroll_middle`: one row up or down, focusing the middle pane.
pub open spec fn post_scroll_middle(a: AppState, up: bool, b: AppState, r: Request) -> bool {
    &&& b == (AppState {
        focus: FocusPane::Middle,
        selection: if up { prev_index(a.selection, a.view_len()) } else { next_index(a.selection, a.view_len()) },
        ..a
    })
    &&& r == sync_if(if up { moves_up(a) } else { moves_down(a) })
}

/// The mouse wheel over a pane: one step in that pane, which gets the focus.
pub open spec fn post_scroll(a: AppState, pane: PaneKind, up: bool, b: AppState, r: Request) -> bool {
    match pane {
        PaneKind::Bookmarks => post_scroll_bookmarks(a, up, b) && r is Idle,
        PaneKind::Middle => post_scroll_middle(a, up, b, r),
        PaneKind::Preview => post_scroll_preview(a, up, b) && r is Idle,
    }
}

/// What `apply_action` does to `a` for `action`: the transition of the state, and the work
/// that remains (see `Request`).
pub open spec fn spec_apply(a: AppState, action: Action, b: AppState, r: Request) -> bool {
    match action {
        Action::Quit => b == a && r is Quit,
        Action::MoveUp => post_move(a, true, b, r),
        Action::MoveDown => post_move(a, false, b, r),
        Action::Enter => if a.focus == FocusPane::Bookmarks {
            post_open_bookmark(a, b, r)
        } else {
            post_enter_selected(a, b, r)
        },
        Action::UpDir => post_go_parent(a, b, r),
        Action::ToggleExpand => post_toggle_expand(a, b, r),
        Action::ViewTree => post_set_view_mode(a, ViewMode::Tree, b, r),
        Action::ViewList => post_set_view_mode(a, ViewMode::List, b, r),
        Action::ViewColumns => post_set_view_mode(a, ViewMode::Columns, b, r),
        Action::CycleView => post_set_view_mode(a, spec_next_view(a.view_mode), b, r),
        Action::PromptCreateFile => post_start_prompt(a, PromptKind::CreateFile, b) && r is Idle,
        Action::PromptCreateDir => post_start_prompt(a, PromptKind::CreateDir, b) && r is Idle,
        Action::PromptRename => post_start_prompt(a, PromptKind::Rename, b) && r is Idle,
        Action::PromptMove => post_start_prompt(a, PromptKind::Move, b) && r is Idle,
        Action::PromptCopy => post_start_prompt(a, PromptKind::Copy, b) && r is Idle,
        Action::PromptDelete => post_start_prompt(a, PromptKind::Delete, b) && r is Idle,
        Action::PromptChar(ch) => post_push_prompt_char(a, ch, b) && r is Idle,
        Action::PromptBackspace => post_pop_prompt_char(a, b) && r is Idle,
        Action::PromptConfirm => post_confirm_prompt(a, b, r),
        Action::PromptCancel => b == (AppState { prompt: None, ..a }) && r is Idle,
        Action::PromptSearch => post_start_prompt(a, PromptKind::Search, b) && r is Idle,
        Action::AddBookmark => post_add_bookmark(a, b, r),
        Action::RemoveBookmark => post_remove_bookmark(a, b, r),
        Action::BookmarkNext => post_bookmark_next(a, b) && r is Idle,
        Action::BookmarkPrev => post_bookmark_prev(a, b) && r is Idle,
        Action::BookmarkOpen => post_open_bookmark(a, b, r),
        Action::ClearSearch => post_clear_search(a, b, r),
        Action::FocusNext => post_focus_next(a, b) && r is Idle,
        Action::FocusPrev => post_focus_prev(a, b) && r is Idle,
        Action::ToggleSelect => post_toggle_select(a, b) && r is Idle,
        Action::SelectAll => post_select_all(a, b) && r is Idle,
        Action::ClearSelection => post_clear_selection(a, b) && r is Idle,
        Action::CopySelection => post_copy_selection(a, false, b) && r is Idle,
        Action::CutSelection => post_copy_selection(a, true, b) && r is Idle,
        Action::PasteSelection => post_paste_selection(a, b, r),
        Action::DeleteSelection => post_start_prompt(a, PromptKind::DeleteSelection, b) && r is Idle,
        Action::ScrollUp(pane) => post_scroll(a, pane, true, b, r),
        Action::ScrollDown(pane) => post_scroll(a, pane, false, b, r),
        Action::ToggleHelp => post_toggle_help(a, b) && r is Idle,
        Action::OpenSelected => post_open_selected(a, b, r),
    }
}

impl AppState {
    /// One step up in the focused pane: the bookmark cursor, the selection, or the preview.
    pub fn move_up(&mut self) -> (r: Request)
        ensures
            post_move(*old(self), true, *final(self), r),
    {
        match self.focus {
            FocusPane::Bookmarks => {
                self.bookmark_prev();
                Request::Idle
            },
            FocusPane::Middle => {
                if self.select_prev() {
                    Request::Sync { columns: true, save: false }
                } else {
                    Request::Idle
                }
            },
            FocusPane::Preview => {
                self.scroll_preview(true);
                Request::Idle
            },
        }
    }

    /// One step down in the focused pane: the bookmark cursor, the selection, or the preview.
    pub fn move_down(&mut self) -> (r: Request)
        ensures
            post_move(*old(self), false, *final(self), r),
    {
        match self.focus {
            FocusPane::Bookmarks => {
                self.bookmark_next();
                Request::Idle
            },
            FocusPane::Middle => {
                if self.select_next() {
                    Request::Sync { columns: true, save: false }
                } else {
                    Request::Idle
                }
            },
            FocusPane::Preview => {
                self.scroll_preview(false);
                Request::Idle
            },
        }
    }

    /// One row up or down in the middle pane, which gets the focus.
    pub fn scroll_middle(&mut self, up: bool) -> (r: Request)
        ensures
            post_scroll_middle(*old(self), up, *final(self), r),
    {
        let moved = if up {
            self.select_prev()
        } else {
            self.select_next()
        };
        self.focus = FocusPane::Middle;
        if moved {
            Request::Sync { columns: true, save: false }
        } else {
            Request::Idle
        }
    }
}

/// Carries out an action on the state, and says what work remains (see `spec_apply`).
pub fn apply_action(state: &mut AppState, action: Action) -> (r: Request)
    ensures
        spec_apply(*old(state), action, *final(state), r),
{
    match action {
        Action::Quit => Request::Quit,
        Action::MoveUp => state.move_up(),
        Action::MoveDown => state.move_down(),
        Action::Enter => {
            if state.focus == FocusPane::Bookmarks {
                state.open_bookmark()
            } else {
                state.enter_selected()
            }
        },
        Action::UpDir => state.go_parent(),
        Action::ToggleExpand => state.toggle_expand(),
        Action::ViewTree => state.set_view_mode(ViewMode::Tree),
        Action::ViewList => state.set_view_mode(ViewMode::List),
        Action::ViewColumns => state.set_view_mode(ViewMode::Columns),
        Action::CycleView => {
            let next = match state.view_mode {
                ViewMode::Tree => ViewMode::List,
                ViewMode::List => ViewMode::Columns,
                ViewMode::Columns => ViewMode::Tree,
            };
            state.set_view_mode(next)
        },
        Action::PromptCreateFile => {
            state.start_prompt(PromptKind::CreateFile);
            Request::Idle
        },
        Action::PromptCreateDir => {
            state.start_prompt(PromptKind::CreateDir);
            Request::Idle
        },
        Action::PromptRename => {
            state.start_prompt(PromptKind::Rename);
            Request::Idle
        },
        Action::PromptMove => {
            state.start_prompt(PromptKind::Move);
            Request::Idle
        },
        Action::PromptCopy => {
            state.start_prompt(PromptKind::Copy);
            Request::Idle
        },
        Action::PromptDelete => {
            state.start_prompt(PromptKind::Delete);
            Request::Idle
        },
        Action::PromptChar(ch) => {
            state.push_prompt_char(ch);
            Request::Idle
        },
        Action::PromptBackspace => {
            state.pop_prompt_char();
            Request::Idle
        },
        Action::PromptConfirm => state.confirm_prompt(),
        Action::PromptCancel => {
            state.cancel_prompt();
            Request::Idle
        },
        Action::PromptSearch => {
            state.start_prompt(PromptKind::Search);
            Request::Idle
        },
        Action::AddBookmark => state.add_bookmark_current(),
        Action::RemoveBookmark => state.remove_bookmark(),
        Action::BookmarkNext => {
            state.bookmark_next();
            Request::Idle
        },
        Action::BookmarkPrev => {
            state.bookmark_prev();
            Request::Idle
        },
        Action::BookmarkOpen => state.open_bookmark(),
        Action::ClearSearch => state.clear_search(),
        Action::FocusNext => {
            state.focus_next();
            Request::Idle
        },
        Action::FocusPrev => {
            state.focus_prev();
            Request::Idle
        },
        Action::ToggleSelect => {
            state.toggle_select();
            Request::Idle
        },
        Action::SelectAll => {
            state.select_all_visible();
            Request::Idle
        },
        Action::ClearSelection => {
            state.clear_selection();
            Request::Idle
        },
        Action::CopySelection => {
            state.copy_selection(false);
            Request::Idle
        },
        Action::CutSelection => {
            state.copy_selection(true);
            Request::Idle
        },
        Action::PasteSelection => state.paste_selection(),
        Action::DeleteSelection => {
            state.delete_selection_prompt();
            Request::Idle
        },
        Action::ScrollUp(pane) => {
            match pane {
                PaneKind::Bookmarks => {
                    state.scroll_bookmarks(true);
                    Request::Idle
                },
                PaneKind::Middle => state.scroll_middle(true),
                PaneKind::Preview => {
                    state.scroll_preview(true);
                    Request::Idle
                },
            }
        },
        Action::ScrollDown(pane) => {
            match pane {
                PaneKind::Bookmarks => {
                    state.scroll_bookmarks(false);
                    Request::Idle
                },
                PaneKind::Middle => state.scroll_middle(false),
                PaneKind::Preview => {
                    state.scroll_preview(false);
                    Request::Idle
                },
            }
        },
        Action::ToggleHelp => {
            state.toggle_help();
            Request::Idle
        },
        Action::OpenSelected => state.open_selected(),
    }
}

} // verus!
