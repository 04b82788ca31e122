//! Transitions of the state that need no disk access: the selection set, the clipboard, the
//! prompt line, bookmarks, and remembering where the cursor was in each directory.
use vstd::prelude::*;
use crate::entries::FileEntry;
use crate::tree::TreeEntry;
use crate::labels::ViewMode;
use crate::config::{Config, copy_strings, copy_openers};
use crate::text::{owned, push_char, pop_char};
use crate::paths::{path_eq, has_path, without_path, contains_path, remove_path, insert_path, position_of_path};
use crate::state::{AppState, Prompt, PromptKind, Clipboard, rows_of, memory_position, memory_insert, lemma_memory_position};
use crate::requests::Request;

verus! {

broadcast use vstd::string::group_string_axioms;

/// `HashSet::insert` on a list of paths: `p` is added at the end unless already there.
pub open spec fn set_insert(list: Seq<String>, p: String) -> Seq<String> {
    if has_path(list, p@) { list } else { list.push(p) }
}

/// The set made by inserting `paths` one after the other into an empty one.
pub open spec fn set_of(paths: Seq<String>) -> Seq<String>
    decreases paths.len(),
{
    if paths.len() == 0 {
        Seq::empty()
    } else {
        set_insert(set_of(paths.drop_last()), paths.last())
    }
}

/// The selection set after toggling path `p`: removed where present, else added.
pub open spec fn toggled(items: Seq<String>, p: String) -> Seq<String> {
    if has_path(items, p@) { without_path(items, p@) } else { items.push(p) }
}

/// The first position in `paths` of the path `p`.
pub open spec fn first_position(paths: Seq<String>, p: Seq<char>) -> Option<int>
    decreases paths.len(),
{
    if paths.len() == 0 {
        None
    } else if path_eq(paths[0]@, p) {
        Some(0)
    } else {
        match first_position(paths.drop_first(), p) {
            Some(i) => Some(i + 1),
            None => None,
        }
    }
}

/// `first_position` finds the first element that is the path, and none where no element is.
pub proof fn lemma_first_position(paths: Seq<String>, p: Seq<char>)
    ensures
        first_position(paths, p) matches Some(i) ==> 0 <= i < paths.len() && path_eq(paths[i]@, p)
            && forall|j: int| 0 <= j < i ==> !path_eq((#[trigger] paths[j])@, p),
        first_position(paths, p) is None ==> !has_path(paths, p),
    decreases paths.len(),
{
    if paths.len() > 0 {
        lemma_first_position(paths.drop_first(), p);
        if let Some(i) = first_position(paths, p) {
            assert forall|j: int| 0 <= j < i implies !path_eq((#[trigger] paths[j])@, p) by {
                if j > 0 {
                    assert(paths[j] == paths.drop_first()[j - 1]);
                }
            }
        } else {
            assert forall|j: int| 0 <= j < paths.len() implies !path_eq((#[trigger] paths[j])@, p) by {
                if j > 0 {
                    assert(paths[j] == paths.drop_first()[j - 1]);
                }
            }
        }
    }
}

/// The selection after coming back to a directory: the row of the entry that was selected
/// when it was left, if it is still shown; else the first row.
pub open spec fn restored_selection(s: AppState) -> usize {
    match crate::state::memory_get(s.selection_memory@, s.current_dir@) {
        None => 0,
        Some(ep) => match first_position(s.row_paths(), ep@) {
            Some(k) => k as usize,
            None => 0,
        },
    }
}

/// The text of the status line, and nothing else, changed.
pub open spec fn only_status(old: AppState, new: AppState, msg: Seq<char>) -> bool {
    &&& new == (AppState { status: new.status, ..old })
    &&& new.status@ == msg
}

/// `toggle_select`: the selected entry added to the selection set, or taken out.
pub open spec fn post_toggle_select(a: AppState, b: AppState) -> bool {
    &&& b == (AppState { selected_items: b.selected_items, ..a })
    &&& b.selected_items@ == match a.spec_selected() {
        Some((p, _)) => toggled(a.selected_items@, p),
        None => a.selected_items@
    }
}

/// `select_all_visible`: the selection set becomes the rows of the current view.
pub open spec fn post_select_all(a: AppState, b: AppState) -> bool {
    &&& b == (AppState { selected_items: b.selected_items, ..a })
    &&& b.selected_items@ == set_of(a.row_paths())
}

/// `clear_selection`: the selection set emptied.
pub open spec fn post_clear_selection(a: AppState, b: AppState) -> bool {
    &&& b == (AppState { selected_items: b.selected_items, ..a })
    &&& b.selected_items@.len() == 0
}

/// `copy_selection`: the selection set (or the selected entry) put on the clipboard.
pub open spec fn post_copy_selection(a: AppState, cut: bool, b: AppState) -> bool {
    &&& a.selected_items.len() == 0 && a.spec_selected() is None ==> only_status(
        a,
        b,
        "no selection to copy"@
    )
    &&& a.selected_items.len() > 0 || a.spec_selected() is Some ==> {
        &&& b == (AppState {
            clipboard: b.clipboard,
            status: b.status,
            ..a
        })
        &&& b.clipboard.items@ == if a.selected_items.len() > 0 {
            a.selected_items@
        } else {
            seq![a.spec_selected()->Some_0.0]
        }
        &&& b.clipboard.cut == cut
        &&& b.status@ == if cut { "cut"@ } else { "copied"@ }
    }
}

/// `start_prompt`: the prompt opened for `kind`.
pub open spec fn post_start_prompt(a: AppState, kind: PromptKind, b: AppState) -> bool {
    &&& b == (AppState { prompt: b.prompt, ..a })
    &&& b.prompt matches Some(p) && p.kind == kind && p.input@ == (
    if kind == PromptKind::Search {
        a.search_query@
    } else {
        Seq::<char>::empty()
    }) && p.source == match a.spec_selected() {
        Some((path, _)) => Some(path),
        None => None::<String>
    }
}

/// `push_prompt_char`: a character typed into an open prompt.
pub open spec fn post_push_prompt_char(a: AppState, ch: char, b: AppState) -> bool {
    &&& b == (AppState { prompt: b.prompt, ..a })
    &&& match (a.prompt, b.prompt) {
        (Some(pa), Some(pb)) => pb.kind == pa.kind && pb.source == pa.source && pb.input@
            == pa.input@.push(ch),
        (None, None) => true,
        _ => false
    }
}

/// `pop_prompt_char`: the last character of an open prompt erased.
pub open spec fn post_pop_prompt_char(a: AppState, b: AppState) -> bool {
    &&& b == (AppState { prompt: b.prompt, ..a })
    &&& match (a.prompt, b.prompt) {
        (Some(pa), Some(pb)) => pb.kind == pa.kind && pb.source == pa.source && pb.input@ == (
        if pa.input@.len() > 0 {
            pa.input@.drop_last()
        } else {
            pa.input@
        }),
        (None, None) => true,
        _ => false
    }
}

/// `add_bookmark_current`: the selected entry bookmarked, unless it is already.
pub open spec fn post_add_bookmark(a: AppState, b: AppState, r: Request) -> bool {
    &&& a.spec_selected() is None ==> only_status(
        a,
        b,
        "no selection to bookmark"@
    ) && r is Idle
    &&& a.spec_selected() is Some && has_path(
        a.bookmarks@,
        a.spec_selected()->Some_0.0@
    ) ==> only_status(a, b, "bookmark already exists"@) && r is Idle
    &&& a.spec_selected() is Some && !has_path(
        a.bookmarks@,
        a.spec_selected()->Some_0.0@
    ) ==> {
        let p = a.spec_selected()->Some_0.0;
        &&& b == (AppState {
            bookmarks: b.bookmarks,
            bookmark_index: a.bookmarks.len(),
            status: b.status,
            ..a
        })
        &&& b.bookmarks@ == a.bookmarks@.push(p)
        &&& b.status@ == "bookmark added"@
        &&& r is Save
    }
}

/// `remove_bookmark`: the bookmark under the cursor removed.
pub open spec fn post_remove_bookmark(a: AppState, b: AppState, r: Request) -> bool {
    &&& a.bookmarks.len() == 0 ==> only_status(a, b, "no bookmarks"@)
        && r is Idle
    &&& a.bookmarks.len() > 0 ==> {
        let n = a.bookmarks.len();
        let bi = a.bookmark_index;
        let at = if bi < n { bi as int } else { n - 1 };
        &&& b == (AppState {
            bookmarks: b.bookmarks,
            bookmark_index: if n == 1 {
                0
            } else if bi >= n - 1 && bi > 0 {
                (bi - 1) as usize
            } else {
                bi
            },
            status: b.status,
            ..a
        })
        &&& b.bookmarks@ == a.bookmarks@.remove(at)
        &&& b.status@ == "bookmark removed"@
        &&& r is Save
    }
}

impl AppState {
    /// The paths of the rows of the current view whose positions are in range, in order.
    pub open spec fn row_paths(self) -> Seq<String> {
        match self.view_mode {
            ViewMode::Tree => rows_of(self.visible_tree@, self.tree_entries@).map_values(
                |e: TreeEntry| e.path,
            ),
            _ => rows_of(self.visible_entries@, self.entries@).map_values(|e: FileEntry| e.path),
        }
    }

    /// The paths of the rows of the current view (see `row_paths`).
    pub fn row_path_list(&self) -> (r: Vec<String>)
        ensures
            r@ == self.row_paths(),
    {
        let mut r: Vec<String> = Vec::new();
        let mut i: usize = 0;
        match self.view_mode {
            ViewMode::Tree => {
                let vis = &self.visible_tree;
                while i < vis.len()
                    invariant
                        i <= vis.len(),
                        vis == self.visible_tree,
                        r@ == rows_of(vis@.subrange(0, i as int), self.tree_entries@).map_values(
                            |e: TreeEntry| e.path,
                        ),
                    decreases vis.len() - i,
                {
                    assert(vis@.subrange(0, i + 1).drop_last() =~= vis@.subrange(0, i as int));
                    let index = vis[i];
                    if index < self.tree_entries.len() {
                        r.push(self.tree_entries[index].path.clone());
                    }
                    i = i + 1;
                    assert(r@ =~= rows_of(vis@.subrange(0, i as int), self.tree_entries@).map_values(
                        |e: TreeEntry| e.path,
                    ));
                }
                assert(vis@.subrange(0, vis.len() as int) =~= vis@);
            },
            _ => {
                let vis = &self.visible_entries;
                while i < vis.len()
                    invariant
                        i <= vis.len(),
                        vis == self.visible_entries,
                        r@ == rows_of(vis@.subrange(0, i as int), self.entries@).map_values(
                            |e: FileEntry| e.path,
                        ),
                    decreases vis.len() - i,
                {
                    assert(vis@.subrange(0, i + 1).drop_last() =~= vis@.subrange(0, i as int));
                    let index = vis[i];
                    if index < self.entries.len() {
                        r.push(self.entries[index].path.clone());
                    }
                    i = i + 1;
                    assert(r@ =~= rows_of(vis@.subrange(0, i as int), self.entries@).map_values(
                        |e: FileEntry| e.path,
                    ));
                }
                assert(vis@.subrange(0, vis.len() as int) =~= vis@);
            },
        }
        r
    }

    /// Adds the selected entry to the selection set, or takes it out if it is there.
    pub fn toggle_select(&mut self)
        ensures
            post_toggle_select(*old(self), *final(self)),
    {
        if let Some((path, _)) = self.selected_path() {
            if contains_path(&self.selected_items, path.as_str()) {
                remove_path(&mut self.selected_items, path.as_str());
            } else {
                self.selected_items.push(path);
            }
        }
    }

    /// Makes the selection set exactly the rows of the current view.
    pub fn select_all_visible(&mut self)
        ensures
            post_select_all(*old(self), *final(self)),
    {
        let rows = self.row_path_list();
        let mut items: Vec<String> = Vec::new();
        let mut i: usize = 0;
        while i < rows.len()
            invariant
                i <= rows.len(),
                items@ == set_of(rows@.subrange(0, i as int)),
            decreases rows.len() - i,
        {
            assert(rows@.subrange(0, i + 1).drop_last() =~= rows@.subrange(0, i as int));
            insert_path(&mut items, rows[i].clone());
            i = i + 1;
        }
        assert(rows@.subrange(0, rows.len() as int) =~= rows@);
        self.selected_items = items;
    }

    /// Empties the selection set.
    pub fn clear_selection(&mut self)
        ensures
            post_clear_selection(*old(self), *final(self)),
    {
        self.selected_items = Vec::new();
    }

    /// Puts the selection set (or, where it is empty, the selected entry) on the clipboard,
    /// to be copied, or moved where `cut`.
    pub fn copy_selection(&mut self, cut: bool)
        ensures
            post_copy_selection(*old(self), cut, *final(self)),
    {
        let mut items = copy_strings(&self.selected_items);
        if items.len() == 0 {
            if let Some((path, _)) = self.selected_path() {
                items.push(path);
            }
        }
        if items.len() == 0 {
            self.status = owned("no selection to copy");
            return;
        }
        self.clipboard = Clipboard { items: items, cut: cut };
        self.status = if cut {
            owned("cut")
        } else {
            owned("copied")
        };
        assert(self.clipboard.items@ == if old(self).selected_items.len() > 0 {
            old(self).selected_items@
        } else {
            seq![old(self).spec_selected()->Some_0.0]
        });
        assert(self.status@ == if cut { "cut"@ } else { "copied"@ });
        assert(*self == (AppState { clipboard: self.clipboard, status: self.status, ..*old(self) }));
    }

    /// Opens the prompt line for `kind`, remembering the selected entry; a search starts
    /// from the current query, everything else from an empty line.
    pub fn start_prompt(&mut self, kind: PromptKind)
        ensures
            post_start_prompt(*old(self), kind, *final(self)),
    {
        let source = match self.selected_path() {
            Some((path, _)) => Some(path),
            None => None,
        };
        let input = if kind == PromptKind::Search {
            self.search_query.clone()
        } else {
            String::new()
        };
        self.prompt = Some(Prompt { kind: kind, input: input, source: source });
    }

    /// Opens the prompt that confirms deleting the selection set.
    pub fn delete_selection_prompt(&mut self)
        ensures
            post_start_prompt(*old(self), PromptKind::DeleteSelection, *final(self)),
    {
        self.start_prompt(PromptKind::DeleteSelection);
    }

    /// Types a character into the prompt line, if one is open.
    pub fn push_prompt_char(&mut self, ch: char)
        ensures
            post_push_prompt_char(*old(self), ch, *final(self)),
    {
        if let Some(mut p) = self.prompt.take() {
            push_char(&mut p.input, ch);
            self.prompt = Some(p);
        }
    }

    /// Erases the prompt line's last character, if a prompt is open and not empty.
    pub fn pop_prompt_char(&mut self)
        ensures
            post_pop_prompt_char(*old(self), *final(self)),
    {
        if let Some(mut p) = self.prompt.take() {
            pop_char(&mut p.input);
            self.prompt = Some(p);
        }
    }

    /// Closes the prompt line without acting on it.
    pub fn cancel_prompt(&mut self)
        ensures
            *final(self) == (AppState { prompt: None, ..*old(self) }),
    {
        self.prompt = None;
    }

    /// Remembers, for the current directory, which entry is selected.
    pub fn remember_selection(&mut self)
        ensures
            *final(self) == (AppState {
                selection_memory: final(self).selection_memory,
                ..*old(self)
            }),
            final(self).selection_memory@ == match old(self).spec_selected() {
                Some((p, _)) => memory_insert(old(self).selection_memory@, old(self).current_dir, p),
                None => old(self).selection_memory@,
            },
    {
        if let Some((path, _)) = self.selected_path() {
            proof {
                lemma_memory_position(self.selection_memory@, self.current_dir@);
            }
            match find_memory(&self.selection_memory, self.current_dir.as_str()) {
                Some(i) => {
                    let key = self.selection_memory[i].0.clone();
                    self.selection_memory.set(i, (key, path));
                },
                None => {
                    let key = self.current_dir.clone();
                    self.selection_memory.push((key, path));
                },
            }
        }
    }

    /// Puts the selection back where it was when the current directory was last left
    /// (see `restored_selection`).
    pub fn restore_selection(&mut self)
        ensures
            *final(self) == (AppState { selection: restored_selection(*old(self)), ..*old(self) }),
    {
        proof {
            lemma_memory_position(self.selection_memory@, self.current_dir@);
        }
        let Some(k) = find_memory(&self.selection_memory, self.current_dir.as_str()) else {
            self.selection = 0;
            return;
        };
        let rows = self.row_path_list();
        proof {
            lemma_first_position(rows@, self.selection_memory@[k as int].1@);
        }
        match position_of_path(&rows, self.selection_memory[k].1.as_str()) {
            Some(pos) => {
                proof {
                    let p = self.selection_memory@[k as int].1@;
                    match first_position(rows@, p) {
                        Some(q) => {
                            if q < pos {
                                assert(!path_eq(rows@[q]@, p));
                            } else if q > pos {
                                assert(!path_eq(rows@[pos as int]@, p));
                            }
                        },
                        None => {
                            assert(path_eq(rows@[pos as int]@, p));
                        },
                    }
                }
                self.selection = pos;
            },
            None => {
                self.selection = 0;
            },
        }
    }

    /// Bookmarks the selected entry, unless it is bookmarked already; a new bookmark is to be
    /// saved and gets the bookmark cursor.
    pub fn add_bookmark_current(&mut self) -> (r: Request)
        ensures
            post_add_bookmark(*old(self), *final(self), r),
    {
        let Some((path, _)) = self.selected_path() else {
            self.status = owned("no selection to bookmark");
            return Request::Idle;
        };
        if !contains_path(&self.bookmarks, path.as_str()) {
            self.bookmarks.push(path);
            self.bookmark_index = self.bookmarks.len() - 1;
            self.status = owned("bookmark added");
            Request::Save
        } else {
            self.status = owned("bookmark already exists");
            Request::Idle
        }
    }

    /// Removes the bookmark under the cursor (or the last one, where the cursor is past the
    /// end), keeping the cursor in range; the change is to be saved.
    pub fn remove_bookmark(&mut self) -> (r: Request)
        ensures
            post_remove_bookmark(*old(self), *final(self), r),
    {
        if self.bookmarks.len() == 0 {
            self.status = owned("no bookmarks");
            return Request::Idle;
        }
        let index = if self.bookmark_index < self.bookmarks.len() {
            self.bookmark_index
        } else {
            self.bookmarks.len() - 1
        };
        self.bookmarks.remove(index);
        if self.bookmarks.len() == 0 {
            self.bookmark_index = 0;
        } else if self.bookmark_index >= self.bookmarks.len() && self.bookmark_index > 0 {
            self.bookmark_index = self.bookmark_index - 1;
        }
        self.status = owned("bookmark removed");
        Request::Save
    }

    /// The configuration to save: the bookmarks, the current directory as the last one, and
    /// the openers as loaded.
    pub fn config_to_save(&self) -> (c: Config)
        ensures
            c.bookmarks@ == self.bookmarks@,
            c.last_dir == Some(self.current_dir),
            c.openers.len() == self.config.openers.len(),
            forall|i: int| 0 <= i < c.openers.len() ==> (#[trigger] c.openers@[i]).same_as(self.config.openers@[i]),
    {
        Config {
            bookmarks: copy_strings(&self.bookmarks),
            last_dir: Some(self.current_dir.clone()),
            openers: copy_openers(&self.config.openers),
        }
    }
}

/// The position of the first entry whose key is the path `key` (see `memory_position`).
pub fn find_memory(mem: &Vec<(String, String)>, key: &str) -> (r: Option<usize>)
    ensures
        r matches Some(i) ==> memory_position(mem@, key@) == Some(i as int) && i < mem.len()
            && crate::state::memory_get(mem@, key@) == Some(mem@[i as int].1),
        r is None ==> memory_position(mem@, key@) is None && crate::state::memory_get(mem@, key@) is None,
{
    let mut i: usize = 0;
    while i < mem.len()
        invariant
            i <= mem.len(),
            forall|j: int| 0 <= j < i ==> !path_eq((#[trigger] mem@[j]).0@, key@),
        decreases mem.len() - i,
    {
        if crate::paths::same_path(mem[i].0.as_str(), key) {
            proof {
                lemma_memory_position_first(mem@, key@, i as int);
            }
            return Some(i);
        }
        i = i + 1;
    }
    proof {
        lemma_memory_position_none(mem@, key@);
    }
    None
}

/// A remembered key found at `i`, with no earlier entry for it, is where the lookup stops.
pub proof fn lemma_memory_position_first(mem: Seq<(String, String)>, key: Seq<char>, i: int)
    requires
        0 <= i < mem.len(),
        path_eq(mem[i].0@, key),
        forall|j: int| 0 <= j < i ==> !path_eq((#[trigger] mem[j]).0@, key),
    ensures
        memory_position(mem, key) == Some(i),
        crate::state::memory_get(mem, key) == Some(mem[i].1),
    decreases mem.len(),
{
    if i > 0 {
        assert(!path_eq(mem[0].0@, key));
        assert forall|j: int| 0 <= j < i - 1 implies !path_eq((#[trigger] mem.drop_first()[j]).0@, key) by {
            assert(mem.drop_first()[j] == mem[j + 1]);
        }
        lemma_memory_position_first(mem.drop_first(), key, i - 1);
    }
}

/// A key that no entry holds is found nowhere.
pub proof fn lemma_memory_position_none(mem: Seq<(String, String)>, key: Seq<char>)
    requires
        forall|j: int| 0 <= j < mem.len() ==> !path_eq((#[trigger] mem[j]).0@, key),
    ensures
        memory_position(mem, key) is None,
        crate::state::memory_get(mem, key) is None,
    decreases mem.len(),
{
    if mem.len() > 0 {
        assert(!path_eq(mem[0].0@, key));
        assert forall|j: int| 0 <= j < mem.len() - 1 implies !path_eq((#[trigger] mem.drop_first()[j]).0@, key) by {
            assert(mem.drop_first()[j] == mem[j + 1]);
        }
        lemma_memory_position_none(mem.drop_first(), key);
    }
}

} // verus!
