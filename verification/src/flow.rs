//! Transitions of the state that wait on the disk: the side panes, changing directory,
//! rebuilding the tree, refreshing after a change, prompts, pasting and opening files.
//! Each returns the `Request` that says what must be read or done next, and which call
//! takes the outcome back.
use vstd::prelude::*;
use crate::entries::FileEntry;
use crate::tree::{DirListing, build_tree_entries, tree_of, listing_for, find_listing, unread_message};
use crate::labels::ViewMode;
use crate::config::{Config, copy_strings};
use crate::text::owned;
use crate::paths::{path_components, path_eq, has_path, without_path, contains_path, remove_path, same_path, parent, path_parent};
use crate::state::{AppState, Clipboard, FocusPane, clamp_index, memory_insert};
use crate::requests::{Request, TreeWork};
use crate::visible::{visible_entry_rows, visible_tree_rows};
use crate::edits::restored_selection;

verus! {

broadcast use vstd::string::group_string_axioms;

/// `b` is `a` with the rows of both views recomputed (see `AppState::rebuild_visible`).
pub open spec fn rebuilt_visible(a: AppState, b: AppState) -> bool {
    &&& b.visible_entries@ == visible_entry_rows(a.entries@, a.query())
    &&& b.visible_tree@ == visible_tree_rows(a.tree_entries@, a.query())
    &&& b == (AppState {
        visible_entries: b.visible_entries,
        visible_tree: b.visible_tree,
        selection: b.selection,
        ..a
    })
    &&& b.selection == if a.query().len() == 0 {
        a.selection
    } else {
        clamp_index(a.selection as int, b.view_len() as int)
    }
}

/// `s` with the selection kept within the current view.
pub open spec fn coerced(s: AppState) -> AppState {
    AppState { selection: clamp_index(s.selection as int, s.view_len() as int), ..s }
}

/// `b` is `a` with an error reported in the status line.
pub open spec fn failed_with(a: AppState, b: AppState, msg: Seq<char>) -> bool {
    b == (AppState { status: b.status, ..a }) && b.status@ == msg
}

/// The entry under the selection in the list and columns views, if any.
pub open spec fn columns_entry(s: AppState) -> Option<FileEntry> {
    let sel = s.selection as int;
    if sel < s.visible_entries.len() && (s.visible_entries@[sel] as int) < s.entries.len() {
        Some(s.entries@[s.visible_entries@[sel] as int])
    } else {
        None
    }
}

/// The directory whose listing the columns view needs, if it needs one: in the columns
/// view, the selected directory, unless its listing is the one already shown.
pub open spec fn spec_columns_request(s: AppState) -> Option<String> {
    if s.view_mode != ViewMode::Columns {
        None
    } else {
        match columns_entry(s) {
            Some(e) => if e.is_dir && !(s.columns_right_path matches Some(p) && path_eq(
                p@,
                e.path@,
            )) {
                Some(e.path)
            } else {
                None
            },
            None => None,
        }
    }
}

/// The path whose preview is needed, if it differs from the one shown.
pub open spec fn spec_preview_request(s: AppState) -> Option<String> {
    match s.spec_selected() {
        Some((p, _)) => if s.preview_path matches Some(q) && path_eq(q@, p@) {
            None
        } else {
            Some(p)
        },
        None => None,
    }
}

/// The text shown for a preview that could not be built.
pub open spec fn preview_error_text(e: Seq<char>) -> Seq<char> {
    "preview error: "@ + e
}

/// The listings to read before rebuilding the tree: the current directory, then each
/// expanded one.
pub open spec fn spec_tree_dirs(s: AppState) -> Seq<String> {
    seq![s.current_dir] + s.expanded@
}

/// The rows of both views of `b` are those its entries, tree and query call for.
pub open spec fn fresh_views(b: AppState) -> bool {
    &&& b.visible_entries@ == visible_entry_rows(b.entries@, b.query())
    &&& b.visible_tree@ == visible_tree_rows(b.tree_entries@, b.query())
}

/// `b` follows from `a` once the tree is rebuilt from `ls` (`rebuild_tree`): the error
/// reported where a listing is missing or failed; else the new rows, then the views
/// recomputed, with the selection kept in range (left alone by `ViewMode` when there is no
/// search).
pub open spec fn post_finish_tree(a: AppState, work: TreeWork, ls: Seq<DirListing>, b: AppState, r: Request) -> bool {
    match tree_of(a.current_dir, a.expanded@, ls) {
        Err(e) => failed_with(a, b, e) && r is Idle,
        Ok(t) => {
            &&& b == (AppState {
                tree_entries: b.tree_entries,
                visible_entries: b.visible_entries,
                visible_tree: b.visible_tree,
                selection: b.selection,
                ..a
            })
            &&& b.tree_entries@ == t
            &&& fresh_views(b)
            &&& match work {
                TreeWork::ViewMode => {
                    &&& b.selection == if a.query().len() == 0 {
                        a.selection
                    } else {
                        clamp_index(a.selection as int, b.view_len() as int)
                    }
                    &&& r == (Request::Sync { columns: true, save: false })
                },
                TreeWork::Expand => {
                    &&& b.selection == clamp_index(a.selection as int, b.view_len() as int)
                    &&& r == (Request::Sync { columns: false, save: false })
                },
            }
        },
    }
}

/// `b` follows from `a` once directory `l.dir` is entered with its listing `l`
/// (`set_current_dir`): on a read error the directory is changed and the error reported;
/// else the entries, a tree with only the new directory expanded, the views recomputed and
/// the selection restored, then the side panes and the configuration updated.
pub open spec fn post_set_current_dir(a: AppState, l: DirListing, b: AppState, r: Request) -> bool {
    match l.entries {
        Err(e) => failed_with(AppState { current_dir: l.dir, ..a }, b, e@) && r is Idle,
        Ok(v) => match tree_of(l.dir, seq![l.dir], seq![l]) {
            Err(e) => {
                &&& b == (AppState {
                    current_dir: l.dir,
                    entries: b.entries,
                    expanded: b.expanded,
                    status: b.status,
                    ..a
                })
                &&& b.entries@ == v@
                &&& b.expanded@ == seq![l.dir]
                &&& b.status@ == e
                &&& r is Idle
            },
            Ok(t) => {
                &&& b == (AppState {
                    current_dir: l.dir,
                    entries: b.entries,
                    expanded: b.expanded,
                    tree_entries: b.tree_entries,
                    visible_entries: b.visible_entries,
                    visible_tree: b.visible_tree,
                    selection: b.selection,
                    ..a
                })
                &&& b.entries@ == v@
                &&& b.expanded@ == seq![l.dir]
                &&& b.tree_entries@ == t
                &&& fresh_views(b)
                &&& b.selection == restored_selection(b)
                &&& r == (Request::Sync { columns: true, save: true })
            },
        },
    }
}

/// `b` follows from `a` once the current directory is read again from `ls`
/// (`refresh_entries`): the entries, then the tree, then the views recomputed with the
/// selection kept in range, then the side panes updated (and the configuration saved where
/// `save`); a missing or failed read stops it there with the error reported.
pub open spec fn post_refresh(a: AppState, ls: Seq<DirListing>, save: bool, b: AppState, r: Request) -> bool {
    match listing_for(ls, a.current_dir@) {
        None => failed_with(a, b, unread_message()) && r is Idle,
        Some(l) => match l.entries {
            Err(e) => failed_with(a, b, e@) && r is Idle,
            Ok(v) => match tree_of(a.current_dir, a.expanded@, ls) {
                Err(e) => {
                    &&& b == (AppState { entries: b.entries, status: b.status, ..a })
                    &&& b.entries@ == v@
                    &&& b.status@ == e
                    &&& r is Idle
                },
                Ok(t) => {
                    &&& b == (AppState {
                        entries: b.entries,
                        tree_entries: b.tree_entries,
                        visible_entries: b.visible_entries,
                        visible_tree: b.visible_tree,
                        selection: b.selection,
                        ..a
                    })
                    &&& b.entries@ == v@
                    &&& b.tree_entries@ == t
                    &&& fresh_views(b)
                    &&& b.selection == clamp_index(a.selection as int, b.view_len() as int)
                    &&& r == (Request::Sync { columns: true, save: save })
                },
            },
        },
    }
}

/// A copy of a list of entries.
pub fn copy_entries(v: &Vec<FileEntry>) -> (r: Vec<FileEntry>)
    ensures
        r@ == v@,
{
    let mut r: Vec<FileEntry> = Vec::new();
    let mut i: usize = 0;
    while i < v.len()
        invariant
            i <= v.len(),
            r@ == v@.subrange(0, i as int),
        decreases v.len() - i,
    {
        r.push(v[i].duplicate());
        i = i + 1;
        assert(r@ =~= v@.subrange(0, i as int));
    }
    assert(v@.subrange(0, v.len() as int) =~= v@);
    r
}

/// `prefix` followed by `rest`, as one string.
pub fn concat(prefix: &str, rest: &str) -> (r: String)
    ensures
        r@ == prefix@ + rest@,
{
    let mut s = owned(prefix);
    s.append(rest);
    s
}

/// `set_view_mode`: the view switched, on its first row; the tree is rebuilt first.
pub open spec fn post_set_view_mode(a: AppState, mode: ViewMode, b: AppState, r: Request) -> bool {
    &&& mode == ViewMode::Tree ==> b == (AppState {
        view_mode: mode,
        selection: 0,
        ..a
    }) && r == Request::ReadTree(TreeWork::ViewMode)
    &&& mode != ViewMode::Tree ==> rebuilt_visible(
        AppState { view_mode: mode, selection: 0, ..a },
        b
    ) && r == (Request::Sync { columns: true, save: false })
}

/// `toggle_expand`: the selected tree directory expanded or collapsed, then the tree rebuilt.
pub open spec fn post_toggle_expand(a: AppState, b: AppState, r: Request) -> bool {
    &&& ({
        let s = a;
        let sel = s.selection as int;
        let on_dir = s.view_mode == ViewMode::Tree && sel < s.visible_tree.len() && (
        s.visible_tree@[sel] as int) < s.tree_entries.len() && s.tree_entries@[s.visible_tree@[sel] as int].is_dir
            && s.tree_entries@[s.visible_tree@[sel] as int].depth != 0;
        if on_dir {
            let p = s.tree_entries@[s.visible_tree@[sel] as int].path;
            &&& b == (AppState { expanded: b.expanded, ..s })
            &&& b.expanded@ == if has_path(s.expanded@, p@) {
                without_path(s.expanded@, p@)
            } else {
                s.expanded@.push(p)
            }
            &&& r == Request::ReadTree(TreeWork::Expand)
        } else {
            b == s && r is Idle
        }
    })
}

/// `enter_selected`: into the selected directory, remembering the selection.
pub open spec fn post_enter_selected(a: AppState, b: AppState, r: Request) -> bool {
    &&& a.spec_selected() matches Some((p, true)) ==> b == (AppState {
        selection_memory: b.selection_memory,
        ..a
    }) && b.selection_memory@ == memory_insert(
        a.selection_memory@,
        a.current_dir,
        p
    ) && r == Request::ChangeDir(p)
    &&& !(a.spec_selected() matches Some((_, true))) ==> b == a
        && r is Idle
}

/// `go_parent`: up to the parent directory (the path without its last component),
/// remembering the selection.
pub open spec fn post_go_parent(a: AppState, b: AppState, r: Request) -> bool {
    &&& path_parent(a.current_dir@) is None ==> b == a && r is Idle
    &&& path_parent(a.current_dir@) is Some ==> {
        &&& b == (AppState {
            selection_memory: b.selection_memory,
            ..a
        })
        &&& b.selection_memory@ == match a.spec_selected() {
            Some((p, _)) => memory_insert(a.selection_memory@, a.current_dir, p),
            None => a.selection_memory@,
        }
        &&& r matches Request::ChangeDir(q) && q@ == path_parent(a.current_dir@)->Some_0
            && path_components(a.current_dir@).len() > 0
            && path_components(q@) == path_components(a.current_dir@).drop_last()
    }
}

/// `open_bookmark`: the bookmark under the cursor checked, then entered.
pub open spec fn post_open_bookmark(a: AppState, b: AppState, r: Request) -> bool {
    &&& a.bookmark_index < a.bookmarks.len() ==> b == a
        && r == Request::CheckBookmark(a.bookmarks@[a.bookmark_index as int])
    &&& a.bookmark_index >= a.bookmarks.len() ==> failed_with(
        a,
        b,
        "no bookmark selected"@
    ) && r is Idle
}

impl AppState {
    /// The directory whose listing the columns view needs (see `spec_columns_request`).
    pub fn columns_request(&self) -> (r: Option<String>)
        ensures
            r == spec_columns_request(*self),
    {
        if self.view_mode != ViewMode::Columns {
            return None;
        }
        if self.selection < self.visible_entries.len() {
            let index = self.visible_entries[self.selection];
            if index < self.entries.len() {
                let e = &self.entries[index];
                if !e.is_dir {
                    return None;
                }
                if let Some(p) = &self.columns_right_path {
                    if same_path(p.as_str(), e.path.as_str()) {
                        return None;
                    }
                }
                return Some(e.path.clone());
            }
        }
        None
    }

    /// `update_columns_preview`: in the columns view, shows beside the selected directory
    /// what it holds (`listing`, read for `columns_request()`; `None`, for a failed read,
    /// shows nothing), and clears that column when the selection is not on a directory.
    pub fn update_columns_preview(&mut self, listing: Option<Vec<FileEntry>>)
        ensures
            old(self).view_mode != ViewMode::Columns ==> *final(self) == *old(self),
            old(self).view_mode == ViewMode::Columns ==> match columns_entry(*old(self)) {
                Some(e) if e.is_dir => match spec_columns_request(*old(self)) {
                    None => *final(self) == *old(self),
                    Some(p) => *final(self) == (AppState {
                        columns_right: final(self).columns_right,
                        columns_right_path: Some(p),
                        ..*old(self)
                    }) && final(self).columns_right@ == match listing {
                        Some(v) => v@,
                        None => Seq::<FileEntry>::empty(),
                    },
                },
                _ => *final(self) == (AppState {
                    columns_right: final(self).columns_right,
                    columns_right_path: None,
                    ..*old(self)
                }) && final(self).columns_right@.len() == 0,
            },
    {
        if self.view_mode != ViewMode::Columns {
            return;
        }
        let mut entry: Option<(String, bool)> = None;
        if self.selection < self.visible_entries.len() {
            let index = self.visible_entries[self.selection];
            if index < self.entries.len() {
                entry = Some((self.entries[index].path.clone(), self.entries[index].is_dir));
            }
        }
        match entry {
            Some((path, true)) => {
                if let Some(p) = &self.columns_right_path {
                    if same_path(p.as_str(), path.as_str()) {
                        return;
                    }
                }
                self.columns_right = match listing {
                    Some(v) => v,
                    None => Vec::new(),
                };
                self.columns_right_path = Some(path);
            },
            _ => {
                self.columns_right = Vec::new();
                self.columns_right_path = None;
            },
        }
    }

    /// The path whose preview is needed (see `spec_preview_request`).
    pub fn preview_request(&self) -> (r: Option<String>)
        ensures
            r == spec_preview_request(*self),
    {
        match self.selected_path() {
            Some((p, _)) => {
                if let Some(q) = &self.preview_path {
                    if same_path(q.as_str(), p.as_str()) {
                        return None;
                    }
                }
                Some(p)
            },
            None => None,
        }
    }

    /// `update_preview`: shows the preview of the selected entry (`built`, made for
    /// `preview_request()` by `build_preview`, or the message of the error that stopped it),
    /// scrolled to the top; with nothing selected, shows nothing.
    pub fn update_preview(&mut self, built: Result<String, String>)
        ensures
            old(self).spec_selected() is None ==> *final(self) == (AppState {
                preview_path: None,
                preview_text: final(self).preview_text,
                preview_scroll: 0,
                ..*old(self)
            }) && final(self).preview_text@.len() == 0,
            old(self).spec_selected() is Some ==> match spec_preview_request(*old(self)) {
                None => *final(self) == *old(self),
                Some(p) => *final(self) == (AppState {
                    preview_path: Some(p),
                    preview_text: final(self).preview_text,
                    preview_scroll: 0,
                    ..*old(self)
                }) && final(self).preview_text@ == match built {
                    Ok(t) => t@,
                    Err(e) => preview_error_text(e@),
                },
            },
    {
        let Some((path, _)) = self.selected_path() else {
            self.preview_path = None;
            self.preview_text = String::new();
            self.preview_scroll = 0;
            return;
        };
        if let Some(q) = &self.preview_path {
            if same_path(q.as_str(), path.as_str()) {
                return;
            }
        }
        self.preview_text = match built {
            Ok(t) => t,
            Err(e) => concat("preview error: ", e.as_str()),
        };
        self.preview_path = Some(path);
        self.preview_scroll = 0;
    }

    /// The listings to read before rebuilding the tree (see `spec_tree_dirs`).
    pub fn tree_dirs(&self) -> (r: Vec<String>)
        ensures
            r@ == spec_tree_dirs(*self),
    {
        let mut r: Vec<String> = Vec::new();
        r.push(self.current_dir.clone());
        let mut rest = copy_strings(&self.expanded);
        r.append(&mut rest);
        r
    }

    /// Rebuilds the tree from the listings read for `tree_dirs()`, then finishes the step
    /// that asked for it (see `post_finish_tree`).
    pub fn finish_tree(&mut self, work: TreeWork, listings: Vec<DirListing>) -> (r: Request)
        ensures
            post_finish_tree(*old(self), work, listings@, *final(self), r),
    {
        match build_tree_entries(&self.current_dir, &self.expanded, &listings) {
            Err(e) => {
                self.status = e;
                Request::Idle
            },
            Ok(t) => {
                self.tree_entries = t;
                let ghost m = *self;
                self.rebuild_visible();
                match work {
                    TreeWork::ViewMode => Request::Sync { columns: true, save: false },
                    TreeWork::Expand => {
                        let ghost m2 = *self;
                        self.coerce_selection();
                        assert(rebuilt_visible(m, m2));
                        Request::Sync { columns: false, save: false }
                    },
                }
            },
        }
    }

    /// Switches the middle pane's view, selecting its first row; the tree view is rebuilt
    /// first (`finish_tree`), the others are shown at once.
    pub fn set_view_mode(&mut self, mode: ViewMode) -> (r: Request)
        ensures
            post_set_view_mode(*old(self), mode, *final(self), r),
    {
        self.view_mode = mode;
        self.selection = 0;
        if mode == ViewMode::Tree {
            return Request::ReadTree(TreeWork::ViewMode);
        }
        self.rebuild_visible();
        Request::Sync { columns: true, save: false }
    }

    /// Expands the selected tree directory, or collapses it (never the root); the tree is
    /// then rebuilt (`finish_tree`).
    pub fn toggle_expand(&mut self) -> (r: Request)
        ensures
            post_toggle_expand(*old(self), *final(self), r),
    {
        if self.view_mode != ViewMode::Tree {
            return Request::Idle;
        }
        if self.selection >= self.visible_tree.len() {
            return Request::Idle;
        }
        let index = self.visible_tree[self.selection];
        if index >= self.tree_entries.len() {
            return Request::Idle;
        }
        if !self.tree_entries[index].is_dir || self.tree_entries[index].depth == 0 {
            return Request::Idle;
        }
        let path = self.tree_entries[index].path.clone();
        if contains_path(&self.expanded, path.as_str()) {
            remove_path(&mut self.expanded, path.as_str());
        } else {
            self.expanded.push(path);
        }
        Request::ReadTree(TreeWork::Expand)
    }

    /// Enters the selected directory (after remembering the selection); does nothing on a
    /// file or an empty view.
    pub fn enter_selected(&mut self) -> (r: Request)
        ensures
            post_enter_selected(*old(self), *final(self), r),
    {
        match self.selected_path() {
            Some((path, true)) => {
                self.remember_selection();
                Request::ChangeDir(path)
            },
            _ => Request::Idle,
        }
    }

    /// Goes to the parent of the current directory (after remembering the selection);
    /// does nothing at the top.
    pub fn go_parent(&mut self) -> (r: Request)
        ensures
            post_go_parent(*old(self), *final(self), r),
    {
        match parent(self.current_dir.as_str()) {
            Some(p) => {
                self.remember_selection();
                Request::ChangeDir(p)
            },
            None => Request::Idle,
        }
    }

    /// Opens the bookmark under the cursor: first it is checked to be a directory
    /// (`open_bookmark_checked`).
    pub fn open_bookmark(&mut self) -> (r: Request)
        ensures
            post_open_bookmark(*old(self), *final(self), r),
    {
        if self.bookmark_index < self.bookmarks.len() {
            Request::CheckBookmark(self.bookmarks[self.bookmark_index].clone())
        } else {
            self.status = owned("no bookmark selected");
            Request::Idle
        }
    }

    /// Enters a bookmarked directory (after remembering the selection), or reports it missing.
    pub fn open_bookmark_checked(&mut self, path: String, is_dir: bool) -> (r: Request)
        ensures
            !is_dir ==> failed_with(*old(self), *final(self), "bookmark missing"@) && r is Idle,
            is_dir ==> *final(self) == (AppState {
                selection_memory: final(self).selection_memory,
                ..*old(self)
            }) && final(self).selection_memory@ == match old(self).spec_selected() {
                Some((p, _)) => memory_insert(old(self).selection_memory@, old(self).current_dir, p),
                None => old(self).selection_memory@,
            } && r == Request::ChangeDir(path),
    {
        if !is_dir {
            self.status = owned("bookmark missing");
            return Request::Idle;
        }
        self.remember_selection();
        Request::ChangeDir(path)
    }

    /// Makes `listing.dir` the current directory (see `post_set_current_dir`).
    pub fn set_current_dir(&mut self, listing: DirListing) -> (r: Request)
        ensures
            post_set_current_dir(*old(self), listing, *final(self), r),
    {
        self.current_dir = listing.dir.clone();
        let v = match &listing.entries {
            Err(e) => {
                self.status = e.clone();
                return Request::Idle;
            },
            Ok(v) => copy_entries(v),
        };
        self.entries = v;
        let mut expanded: Vec<String> = Vec::new();
        expanded.push(self.current_dir.clone());
        self.expanded = expanded;
        let ghost l = listing;
        let listings = vec![listing];
        assert(listings@ == seq![l]);
        match build_tree_entries(&self.current_dir, &self.expanded, &listings) {
            Err(e) => {
                self.status = e;
                Request::Idle
            },
            Ok(t) => {
                self.tree_entries = t;
                let ghost m = *self;
                self.rebuild_visible();
                let ghost m2 = *self;
                self.restore_selection();
                assert(rebuilt_visible(m, m2));
                Request::Sync { columns: true, save: true }
            },
        }
    }

    /// Reads the current directory again from `listings` (see `post_refresh`).
    pub fn refresh_entries(&mut self, listings: Vec<DirListing>, save: bool) -> (r: Request)
        ensures
            post_refresh(*old(self), listings@, save, *final(self), r),
    {
        let Some(i) = find_listing(&listings, self.current_dir.as_str()) else {
            self.status = owned("directory was not read");
            return Request::Idle;
        };
        let v = match &listings[i].entries {
            Err(e) => {
                self.status = e.clone();
                return Request::Idle;
            },
            Ok(v) => copy_entries(v),
        };
        self.entries = v;
        match build_tree_entries(&self.current_dir, &self.expanded, &listings) {
            Err(e) => {
                self.status = e;
                Request::Idle
            },
            Ok(t) => {
                self.tree_entries = t;
                let ghost m = *self;
                self.rebuild_visible();
                let ghost m2 = *self;
                self.coerce_selection();
                assert(rebuilt_visible(m, m2));
                Request::Sync { columns: true, save: save }
            },
        }
    }
}


/// The state the file manager starts in, in directory `l.dir` read as `l`, with `config`
/// loaded: the tree view of that directory with nothing expanded below it, every row shown,
/// the first selected, the bookmarks from the configuration, and nothing else yet.
pub open spec fn initial_state(config: Config, l: DirListing, s: AppState) -> bool {
    &&& l.entries is Ok
    &&& s.current_dir == l.dir
    &&& s.entries@ == l.entries->Ok_0@
    &&& tree_of(l.dir, seq![l.dir], seq![l]) matches Ok(t) && s.tree_entries@ == t
    &&& s.visible_entries@ == crate::visible::all_indices(s.entries@.len())
    &&& s.visible_tree@ == crate::visible::all_indices(s.tree_entries@.len())
    &&& s.selection == 0
    &&& s.selected_items@.len() == 0
    &&& s.bookmarks@ == config.bookmarks@
    &&& s.bookmark_index == 0
    &&& s.view_mode == ViewMode::Tree
    &&& s.focus == FocusPane::Middle
    &&& s.pane_areas is None
    &&& s.expanded@ == seq![l.dir]
    &&& s.selection_memory@.len() == 0
    &&& s.columns_right@.len() == 0
    &&& s.columns_right_path is None
    &&& s.clipboard.items@.len() == 0 && !s.clipboard.cut
    &&& s.config == config
    &&& s.prompt is None
    &&& s.status@.len() == 0
    &&& s.preview_path is None
    &&& s.preview_text@.len() == 0
    &&& s.preview_scroll == 0
    &&& s.search_query@.len() == 0
    &&& !s.help_open
}

impl AppState {
    /// The starting state (see `initial_state`), or the error that reading the directory
    /// gave; the preview is to be brought up to date next.
    pub fn new(config: Config, listing: DirListing) -> (r: Result<(AppState, Request), String>)
        ensures
            match r {
                Ok((s, req)) => initial_state(config, listing, s) && req == (Request::Sync {
                    columns: false,
                    save: false,
                }),
                Err(e) => match listing.entries {
                    Err(m) => e@ == m@,
                    Ok(_) => tree_of(listing.dir, seq![listing.dir], seq![listing]) matches Err(m) && e@ == m,
                },
            },
    {
        let ghost l = listing;
        let dir = listing.dir.clone();
        let entries = match &listing.entries {
            Err(e) => {
                return Err(e.clone());
            },
            Ok(v) => copy_entries(v),
        };
        let mut expanded: Vec<String> = Vec::new();
        expanded.push(dir.clone());
        let listings = vec![listing];
        assert(listings@ == seq![l]);
        let tree_entries = match build_tree_entries(&dir, &expanded, &listings) {
            Err(e) => {
                return Err(e);
            },
            Ok(t) => t,
        };
        let bookmarks = copy_strings(&config.bookmarks);
        let mut state = AppState {
            current_dir: dir,
            entries: entries,
            tree_entries: tree_entries,
            visible_entries: Vec::new(),
            visible_tree: Vec::new(),
            selection: 0,
            selected_items: Vec::new(),
            bookmarks: bookmarks,
            bookmark_index: 0,
            view_mode: ViewMode::Tree,
            focus: FocusPane::Middle,
            pane_areas: None,
            expanded: expanded,
            selection_memory: Vec::new(),
            columns_right: Vec::new(),
            columns_right_path: None,
            clipboard: Clipboard::new(),
            config: config,
            prompt: None,
            status: String::new(),
            preview_path: None,
            preview_text: String::new(),
            preview_scroll: 0,
            search_query: String::new(),
            help_open: false,
        };
        state.rebuild_visible();
        Ok((state, Request::Sync { columns: false, save: false }))
    }
}

} // verus!
