//! The file manager's state and the transitions that need no disk access.
use vstd::prelude::*;
use crate::entries::FileEntry;
use crate::tree::TreeEntry;
use crate::labels::ViewMode;
use crate::config::Config;
use crate::text::{line_count, count_lines};
use crate::paths::path_eq;

verus! {

broadcast use vstd::string::group_string_axioms;

/// The pane that has the keyboard.
#[derive(Debug, Clone, Copy, PartialEq, Eq, Structural)]
pub enum FocusPane {
    Bookmarks,
    Middle,
    Preview,
}

/// A pane, as found under the mouse.
#[derive(Debug, Clone, Copy, PartialEq, Eq, Structural)]
pub enum PaneKind {
    Bookmarks,
    Middle,
    Preview,
}

/// What the prompt line is asking for.
#[derive(Debug, Clone, Copy, PartialEq, Eq, Structural)]
pub enum PromptKind {
    CreateFile,
    CreateDir,
    Rename,
    Move,
    Copy,
    Delete,
    DeleteSelection,
    Search,
}

/// An open prompt: its kind, what has been typed, and the entry selected when it opened.
#[derive(Debug)]
pub struct Prompt {
    pub kind: PromptKind,
    pub input: String,
    pub source: Option<String>,
}

/// Paths copied or cut, waiting to be pasted.
#[derive(Debug)]
pub struct Clipboard {
    pub items: Vec<String>,
    pub cut: bool,
}

impl Clipboard {
    /// An empty clipboard.
    pub fn new() -> (c: Clipboard)
        ensures
            c.items@.len() == 0,
            !c.cut,
    {
        Clipboard { items: Vec::new(), cut: false }
    }
}

/// A rectangle of terminal cells.
#[derive(Debug, Clone, Copy, PartialEq, Eq, Structural)]
pub struct Rect {
    pub x: u16,
    pub y: u16,
    pub width: u16,
    pub height: u16,
}

/// Where each pane was last drawn.
#[derive(Debug, Clone, Copy, PartialEq, Eq, Structural)]
pub struct PaneAreas {
    pub bookmarks: Rect,
    pub middle: Rect,
    pub preview: Rect,
    pub status: Rect,
}

/// `a + b`, or `u16::MAX` where that does not fit.
pub open spec fn sat_add(a: u16, b: u16) -> int {
    if a + b > u16::MAX { u16::MAX as int } else { a + b }
}

/// The cell at `(col, row)` lies in `rect` (whose far edges are cut at `u16::MAX`).
pub open spec fn spec_contains(rect: Rect, col: u16, row: u16) -> bool {
    rect.x <= col && col < sat_add(rect.x, rect.width) && rect.y <= row && row < sat_add(
        rect.y,
        rect.height,
    )
}

/// Whether the cell at `(col, row)` lies in `rect`.
pub fn contains(rect: Rect, col: u16, row: u16) -> (r: bool)
    ensures
        r == spec_contains(rect, col, row),
{
    col >= rect.x && col < rect.x.saturating_add(rect.width) && row >= rect.y && row
        < rect.y.saturating_add(rect.height)
}

impl PaneAreas {
    /// The pane under a cell, trying bookmarks, then the middle pane, then the preview.
    pub open spec fn spec_pane_at(self, col: u16, row: u16) -> Option<PaneKind> {
        if spec_contains(self.bookmarks, col, row) {
            Some(PaneKind::Bookmarks)
        } else if spec_contains(self.middle, col, row) {
            Some(PaneKind::Middle)
        } else if spec_contains(self.preview, col, row) {
            Some(PaneKind::Preview)
        } else {
            None
        }
    }

    /// The pane under the cell at `(col, row)`, if any.
    pub fn pane_at(&self, col: u16, row: u16) -> (r: Option<PaneKind>)
        ensures
            r == self.spec_pane_at(col, row),
    {
        if contains(self.bookmarks, col, row) {
            Some(PaneKind::Bookmarks)
        } else if contains(self.middle, col, row) {
            Some(PaneKind::Middle)
        } else if contains(self.preview, col, row) {
            Some(PaneKind::Preview)
        } else {
            None
        }
    }
}

/// Everything the file manager shows and remembers.
#[derive(Debug)]
pub struct AppState {
    pub current_dir: String,
    pub entries: Vec<FileEntry>,
    pub tree_entries: Vec<TreeEntry>,
    pub visible_entries: Vec<usize>,
    pub visible_tree: Vec<usize>,
    pub selection: usize,
    pub selected_items: Vec<String>,
    pub bookmarks: Vec<String>,
    pub bookmark_index: usize,
    pub view_mode: ViewMode,
    pub focus: FocusPane,
    pub pane_areas: Option<PaneAreas>,
    pub expanded: Vec<String>,
    pub selection_memory: Vec<(String, String)>,
    pub columns_right: Vec<FileEntry>,
    pub columns_right_path: Option<String>,
    pub clipboard: Clipboard,
    pub config: Config,
    pub prompt: Option<Prompt>,
    pub status: String,
    pub preview_path: Option<String>,
    pub preview_text: String,
    pub preview_scroll: u16,
    pub search_query: String,
    pub help_open: bool,
}

/// The selection kept within a view of `len` rows (`0` for an empty view).
pub open spec fn clamp_index(sel: int, len: int) -> usize {
    if len <= 0 {
        0
    } else if sel < len {
        sel as usize
    } else {
        (len - 1) as usize
    }
}

/// One step down a list of `len` rows, stopping at the last.
pub open spec fn next_index(i: usize, len: nat) -> usize {
    if len == 0 {
        0
    } else if i + 1 < len {
        (i + 1) as usize
    } else {
        (len - 1) as usize
    }
}

/// The focus after `Tab`: bookmarks, middle, preview, and round again.
pub open spec fn spec_focus_next(f: FocusPane) -> FocusPane {
    match f {
        FocusPane::Bookmarks => FocusPane::Middle,
        FocusPane::Middle => FocusPane::Preview,
        FocusPane::Preview => FocusPane::Bookmarks,
    }
}

/// The focus after `Shift+Tab`: the other way round.
pub open spec fn spec_focus_prev(f: FocusPane) -> FocusPane {
    match f {
        FocusPane::Bookmarks => FocusPane::Preview,
        FocusPane::Middle => FocusPane::Bookmarks,
        FocusPane::Preview => FocusPane::Middle,
    }
}

/// The value stored for `key` in an association list (`HashMap::get`): that of its first
/// entry whose key is the path `key`.
pub open spec fn memory_get(mem: Seq<(String, String)>, key: Seq<char>) -> Option<String>
    decreases mem.len(),
{
    if mem.len() == 0 {
        None
    } else if path_eq(mem[0].0@, key) {
        Some(mem[0].1)
    } else {
        memory_get(mem.drop_first(), key)
    }
}

/// The position of the first entry with `key`, if any.
pub open spec fn memory_position(mem: Seq<(String, String)>, key: Seq<char>) -> Option<int>
    decreases mem.len(),
{
    if mem.len() == 0 {
        None
    } else if path_eq(mem[0].0@, key) {
        Some(0)
    } else {
        match memory_position(mem.drop_first(), key) {
            Some(i) => Some(i + 1),
            None => None,
        }
    }
}

/// `HashMap::insert` on an association list: the first entry with `key` gets the new value
/// (keeping its key), or a new entry is added at the end.
pub open spec fn memory_insert(mem: Seq<(String, String)>, key: String, value: String) -> Seq<
    (String, String),
> {
    match memory_position(mem, key@) {
        Some(i) => mem.update(i, (mem[i].0, value)),
        None => mem.push((key, value)),
    }
}

/// Where the lookup finds a key, the entry there holds it and gives the remembered value.
pub proof fn lemma_memory_position(mem: Seq<(String, String)>, key: Seq<char>)
    ensures
        memory_position(mem, key) matches Some(i) ==> 0 <= i < mem.len() && path_eq(mem[i].0@, key)
            && memory_get(mem, key) == Some(mem[i].1),
        memory_position(mem, key) is None ==> memory_get(mem, key) is None,
    decreases mem.len(),
{
    if mem.len() > 0 {
        lemma_memory_position(mem.drop_first(), key);
    }
}

/// The entries of a list, those at positions that are in range, in the list's order.
pub open spec fn rows_of<T>(indices: Seq<usize>, items: Seq<T>) -> Seq<T>
    decreases indices.len(),
{
    if indices.len() == 0 {
        Seq::empty()
    } else {
        let rest = rows_of(indices.drop_last(), items);
        if (indices.last() as int) < items.len() {
            rest.push(items[indices.last() as int])
        } else {
            rest
        }
    }
}

/// `select_next`: one row down, stopping at the last; `r` says whether the side panes
/// are to be brought up to date (not for an empty view).
pub open spec fn post_select_next(a: AppState, b: AppState, r: bool) -> bool {
    &&& b == (AppState {
        selection: next_index(a.selection, a.view_len()),
        ..a
    })
    &&& r == (a.view_len() > 0)
}

/// `select_prev`: one row up, stopping at the first; `r` says whether the side panes
/// are to be brought up to date (only when the selection moved).
pub open spec fn post_select_prev(a: AppState, b: AppState, r: bool) -> bool {
    &&& a.view_len() == 0 ==> b == (AppState { selection: 0, ..a })
        && !r
    &&& a.view_len() > 0 && a.selection == 0 ==> b == a
        && !r
    &&& a.view_len() > 0 && a.selection > 0 ==> b == (AppState {
        selection: (a.selection - 1) as usize,
        ..a
    }) && r
}

/// `bookmark_next`: the bookmark cursor one down, stopping at the last bookmark.
pub open spec fn post_bookmark_next(a: AppState, b: AppState) -> bool {
    &&& b == (AppState {
        bookmark_index: if a.bookmarks.len() == 0 {
            a.bookmark_index
        } else {
            next_index(a.bookmark_index, a.bookmarks@.len())
        },
        ..a
    })
}

/// `bookmark_prev`: the bookmark cursor one up, stopping at the first bookmark.
pub open spec fn post_bookmark_prev(a: AppState, b: AppState) -> bool {
    &&& b == (AppState {
        bookmark_index: if a.bookmarks.len() == 0 || a.bookmark_index == 0 {
            a.bookmark_index
        } else {
            (a.bookmark_index - 1) as usize
        },
        ..a
    })
}

/// `focus_next`: the focus moves to the next pane.
pub open spec fn post_focus_next(a: AppState, b: AppState) -> bool {
    &&& b == (AppState { focus: spec_focus_next(a.focus), ..a })
}

/// `focus_prev`: the focus moves to the previous pane.
pub open spec fn post_focus_prev(a: AppState, b: AppState) -> bool {
    &&& b == (AppState { focus: spec_focus_prev(a.focus), ..a })
}

/// `scroll_preview`: the preview focused and scrolled one line up or down.
pub open spec fn post_scroll_preview(a: AppState, up: bool, b: AppState) -> bool {
    &&& b == (AppState {
        focus: FocusPane::Preview,
        preview_scroll: a.scrolled_preview(up),
        ..a
    })
}

/// `scroll_bookmarks`: the bookmarks focused and their cursor moved one up or down.
pub open spec fn post_scroll_bookmarks(a: AppState, up: bool, b: AppState) -> bool {
    &&& b.focus == FocusPane::Bookmarks
    &&& b.bookmark_index == (if a.bookmarks.len() == 0 {
        a.bookmark_index
    } else if up {
        if a.bookmark_index == 0 { 0 } else { (a.bookmark_index - 1) as usize }
    } else {
        next_index(a.bookmark_index, a.bookmarks@.len())
    })
    &&& b == (AppState {
        focus: FocusPane::Bookmarks,
        bookmark_index: b.bookmark_index,
        ..a
    })
}

/// `toggle_help`: the help overlay opened or closed.
pub open spec fn post_toggle_help(a: AppState, b: AppState) -> bool {
    &&& b == (AppState { help_open: !a.help_open, ..a })
}

impl AppState {
    /// The number of rows in the current view.
    pub open spec fn view_len(self) -> nat {
        match self.view_mode {
            ViewMode::Tree => self.visible_tree@.len(),
            _ => self.visible_entries@.len(),
        }
    }

    /// The selected row's path and whether it is a directory, if the selection is on a row.
    pub open spec fn spec_selected(self) -> Option<(String, bool)> {
        let sel = self.selection as int;
        match self.view_mode {
            ViewMode::Tree => if sel < self.visible_tree.len() && (self.visible_tree@[sel] as int)
                < self.tree_entries.len() {
                let e = self.tree_entries@[self.visible_tree@[sel] as int];
                Some((e.path, e.is_dir))
            } else {
                None
            },
            _ => if sel < self.visible_entries.len() && (self.visible_entries@[sel] as int)
                < self.entries.len() {
                let e = self.entries@[self.visible_entries@[sel] as int];
                Some((e.path, e.is_dir))
            } else {
                None
            },
        }
    }

    /// The paths of the rows of the current view whose positions are in range.
    pub open spec fn visible_paths(self) -> Seq<Seq<char>> {
        match self.view_mode {
            ViewMode::Tree => rows_of(self.visible_tree@, self.tree_entries@).map_values(
                |e: TreeEntry| e.path@,
            ),
            _ => rows_of(self.visible_entries@, self.entries@).map_values(|e: FileEntry| e.path@),
        }
    }

    /// The selected row's path and whether it is a directory.
    pub fn selected_path(&self) -> (r: Option<(String, bool)>)
        ensures
            r == self.spec_selected(),
    {
        match self.view_mode {
            ViewMode::Tree => {
                if self.selection < self.visible_tree.len() {
                    let index = self.visible_tree[self.selection];
                    if index < self.tree_entries.len() {
                        let e = &self.tree_entries[index];
                        return Some((e.path.clone(), e.is_dir));
                    }
                }
                None
            },
            _ => {
                if self.selection < self.visible_entries.len() {
                    let index = self.visible_entries[self.selection];
                    if index < self.entries.len() {
                        let e = &self.entries[index];
                        return Some((e.path.clone(), e.is_dir));
                    }
                }
                None
            },
        }
    }

    /// The number of rows in the current view.
    pub fn current_view_len(&self) -> (n: usize)
        ensures
            n == self.view_len(),
    {
        match self.view_mode {
            ViewMode::Tree => self.visible_tree.len(),
            _ => self.visible_entries.len(),
        }
    }

    /// Keeps the selection on a row of the current view.
    pub fn coerce_selection(&mut self)
        ensures
            *final(self) == (AppState {
                selection: clamp_index(old(self).selection as int, old(self).view_len() as int),
                ..*old(self)
            }),
    {
        let len = self.current_view_len();
        if len == 0 {
            self.selection = 0;
        } else if self.selection >= len {
            self.selection = len - 1;
        }
    }

    /// Moves the selection one row down, stopping at the last row. Returns whether the side
    /// panes are to be brought up to date (they are not when the view is empty).
    pub fn select_next(&mut self) -> (sync: bool)
        ensures
            post_select_next(*old(self), *final(self), sync),
    {
        let len = self.current_view_len();
        if len == 0 {
            self.selection = 0;
            return false;
        }
        if self.selection < len - 1 {
            self.selection = self.selection + 1;
        } else {
            self.selection = len - 1;
        }
        true
    }

    /// Moves the selection one row up, stopping at the first. Returns whether the side
    /// panes are to be brought up to date (only when the selection moved).
    pub fn select_prev(&mut self) -> (sync: bool)
        ensures
            post_select_prev(*old(self), *final(self), sync),
    {
        let len = self.current_view_len();
        if len == 0 {
            self.selection = 0;
            return false;
        }
        if self.selection == 0 {
            return false;
        }
        self.selection = self.selection - 1;
        true
    }

    /// Moves the bookmark cursor down, stopping at the last bookmark.
    pub fn bookmark_next(&mut self)
        ensures
            post_bookmark_next(*old(self), *final(self)),
    {
        if self.bookmarks.len() == 0 {
            return;
        }
        if self.bookmark_index < self.bookmarks.len() - 1 {
            self.bookmark_index = self.bookmark_index + 1;
        } else {
            self.bookmark_index = self.bookmarks.len() - 1;
        }
    }

    /// Moves the bookmark cursor up, stopping at the first bookmark.
    pub fn bookmark_prev(&mut self)
        ensures
            post_bookmark_prev(*old(self), *final(self)),
    {
        if self.bookmarks.len() == 0 {
            return;
        }
        if self.bookmark_index == 0 {
            return;
        }
        self.bookmark_index = self.bookmark_index - 1;
    }

    /// Gives the focus to the next pane.
    pub fn focus_next(&mut self)
        ensures
            post_focus_next(*old(self), *final(self)),
    {
        self.focus = match self.focus {
            FocusPane::Bookmarks => FocusPane::Middle,
            FocusPane::Middle => FocusPane::Preview,
            FocusPane::Preview => FocusPane::Bookmarks,
        };
    }

    /// Gives the focus to the previous pane.
    pub fn focus_prev(&mut self)
        ensures
            post_focus_prev(*old(self), *final(self)),
    {
        self.focus = match self.focus {
            FocusPane::Bookmarks => FocusPane::Preview,
            FocusPane::Middle => FocusPane::Bookmarks,
            FocusPane::Preview => FocusPane::Middle,
        };
    }

    /// The furthest the preview can scroll: its line count less the lines that fit in a pane
    /// `height` rows high (two go to the border), cut to 16 bits as `as u16` does.
    pub open spec fn max_preview_scroll(self, height: nat) -> u16 {
        let lines = line_count(self.preview_text@);
        let d = if lines > height { lines - height } else { 0 };
        (d % 65536) as u16
    }

    /// The preview's scroll offset after one step up or down.
    pub open spec fn scrolled_preview(self, up: bool) -> u16 {
        match self.pane_areas {
            None => self.preview_scroll,
            Some(areas) => {
                let height: nat = if areas.preview.height >= 2 {
                    (areas.preview.height - 2) as nat
                } else {
                    0
                };
                if height == 0 {
                    self.preview_scroll
                } else if up {
                    if self.preview_scroll > 0 { (self.preview_scroll - 1) as u16 } else { 0 }
                } else {
                    let max = self.max_preview_scroll(height);
                    if self.preview_scroll + 1 < max { (self.preview_scroll + 1) as u16 } else { max }
                }
            },
        }
    }

    /// Scrolls the preview one line, within its text, and gives it the focus.
    pub fn scroll_preview(&mut self, up: bool)
        ensures
            post_scroll_preview(*old(self), up, *final(self)),
    {
        self.focus = FocusPane::Preview;
        let areas = match self.pane_areas {
            Some(a) => a,
            None => {
                return;
            },
        };
        let height: usize = areas.preview.height.saturating_sub(2) as usize;
        if height == 0 {
            return;
        }
        let lines = count_lines(self.preview_text.as_str());
        let d: usize = lines.saturating_sub(height);
        let max_scroll: u16 = d as u16;
        assert(d as u16 == (d % 65536) as u16) by (bit_vector);
        if up {
            self.preview_scroll = self.preview_scroll.saturating_sub(1);
        } else if self.preview_scroll < max_scroll {
            self.preview_scroll = self.preview_scroll + 1;
        } else {
            self.preview_scroll = max_scroll;
        }
    }

    /// One bookmark up or down, focusing the bookmarks pane.
    pub fn scroll_bookmarks(&mut self, up: bool)
        ensures
            post_scroll_bookmarks(*old(self), up, *final(self)),
    {
        if up {
            self.bookmark_prev();
        } else {
            self.bookmark_next();
        }
        self.focus = FocusPane::Bookmarks;
    }

    /// Opens the help overlay, or closes it.
    pub fn toggle_help(&mut self)
        ensures
            post_toggle_help(*old(self), *final(self)),
    {
        self.help_open = !self.help_open;
    }
}

} // verus!
