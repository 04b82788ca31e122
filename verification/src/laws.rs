//! Properties of the file manager that span several calls or hold of every state.
use vstd::prelude::*;
use crate::entries::{FileEntry, stable_arrangement, entry_lt};
use crate::tree::{TreeEntry, DirListing, tree_of, tree_row, tree_fuel, children_rows, dir_rows, listing_for};
use crate::labels::ViewMode;
use crate::text::{unicode_lower, trimmed};
use crate::paths::{path_eq, path_components, has_path, without_path};
use crate::state::{AppState, FocusPane, PromptKind, Prompt, spec_focus_next, spec_focus_prev,
    post_select_next, post_select_prev, post_bookmark_next, post_bookmark_prev, post_focus_next,
    post_focus_prev};
use crate::edits::{first_position, lemma_first_position, toggled, post_push_prompt_char, post_pop_prompt_char, post_remove_bookmark,
    post_add_bookmark};
use crate::visible::{visible_entry_rows, visible_tree_rows, all_indices};
use crate::commands::{spec_next_view, Action};
use crate::input::{InputEvent, spec_handle_event};
use crate::prompts::{post_execute_prompt, post_paste_step};
use crate::requests::Request;
use crate::flow::{fresh_views, post_enter_selected, post_go_parent, post_set_current_dir};
use crate::state::{memory_get, memory_insert, rows_of};

verus! {

/// `Shift+Tab` undoes `Tab`, and `Tab` undoes `Shift+Tab`: the state is as before.
pub proof fn law_focus_round_trip(a: AppState, b: AppState, c: AppState)
    ensures
        post_focus_next(a, b) && post_focus_prev(b, c) ==> c == a,
        post_focus_prev(a, b) && post_focus_next(b, c) ==> c == a,
{
}

/// Three presses of `Tab` (or of `Shift+Tab`) give the focus back to the pane that had it.
pub proof fn law_focus_cycle(f: FocusPane)
    ensures
        spec_focus_next(spec_focus_next(spec_focus_next(f))) == f,
        spec_focus_prev(spec_focus_prev(spec_focus_prev(f))) == f,
{
}

/// Cycling the view (`v`) goes through all three views and comes back after three.
pub proof fn law_view_cycle(m: ViewMode)
    ensures
        spec_next_view(spec_next_view(spec_next_view(m))) == m,
        spec_next_view(m) != m,
        spec_next_view(spec_next_view(m)) != m,
{
}

proof fn lemma_without_absent(items: Seq<String>, p: Seq<char>)
    requires
        !has_path(items, p),
    ensures
        without_path(items, p) == items,
    decreases items.len(),
{
    if items.len() > 0 {
        assert(!path_eq(items.last()@, p)) by {
            assert(items[items.len() - 1] == items.last());
        }
        assert(!has_path(items.drop_last(), p)) by {
            if has_path(items.drop_last(), p) {
                let i = choose|i: int| 0 <= i < items.drop_last().len() && path_eq((#[trigger] items.drop_last()[i])@, p);
                assert(items[i] == items.drop_last()[i]);
            }
        }
        lemma_without_absent(items.drop_last(), p);
        assert(items.drop_last().push(items.last()) =~= items);
    }
}

/// Toggling the selection of an entry that is not selected, then toggling it again, leaves
/// the selection set as it was.
pub proof fn law_toggle_twice(items: Seq<String>, p: String)
    requires
        !has_path(items, p@),
    ensures
        toggled(items, p) == items.push(p),
        toggled(toggled(items, p), p) == items,
{
    let once = items.push(p);
    assert(has_path(once, p@)) by {
        assert(once[items.len() as int] == p);
    }
    assert(once.drop_last() =~= items);
    assert(once.last() == p);
    lemma_without_absent(items, p@);
    assert(without_path(once, p@) == without_path(items, p@));
}

/// Typing a character into the prompt and erasing it leaves the state as it was: the same
/// prompt with the same text.
pub proof fn law_type_then_erase(a: AppState, ch: char, b: AppState, c: AppState)
    requires
        post_push_prompt_char(a, ch, b),
        post_pop_prompt_char(b, c),
    ensures
        c == (AppState { prompt: c.prompt, ..a }),
        match (a.prompt, c.prompt) {
            (Some(pa), Some(pc)) => pc.kind == pa.kind && pc.source == pa.source && pc.input@ == pa.input@,
            (None, None) => true,
            _ => false,
        },
{
    match (a.prompt, b.prompt, c.prompt) {
        (Some(pa), Some(pb), Some(pc)) => {
            assert(pb.input@.drop_last() =~= pa.input@);
        },
        _ => {},
    }
}

/// The bookmark cursor stays on a bookmark: moving it, adding a bookmark or removing one
/// keeps it in range whenever it was in range (or there were no bookmarks).
pub proof fn law_bookmark_cursor_in_range(a: AppState, b: AppState, r: Request)
    requires
        a.bookmark_index < a.bookmarks.len() || a.bookmarks.len() == 0,
    ensures
        post_bookmark_next(a, b) ==> b.bookmark_index < b.bookmarks.len() || b.bookmarks.len() == 0,
        post_bookmark_prev(a, b) ==> b.bookmark_index < b.bookmarks.len() || b.bookmarks.len() == 0,
        post_remove_bookmark(a, b, r) ==> b.bookmark_index < b.bookmarks.len() || b.bookmarks.len() == 0,
        post_add_bookmark(a, b, r) ==> b.bookmark_index < b.bookmarks.len() || b.bookmarks.len() == 0,
{
    if post_remove_bookmark(a, b, r) && a.bookmarks.len() > 0 {
        assert(b.bookmarks@.len() == a.bookmarks@.len() - 1);
    }
}

/// Moving down and then up the bookmarks, from any bookmark but the last, comes back to it.
pub proof fn law_bookmark_down_up(a: AppState, b: AppState, c: AppState)
    requires
        a.bookmark_index + 1 < a.bookmarks.len(),
        post_bookmark_next(a, b),
        post_bookmark_prev(b, c),
    ensures
        c == a,
{
}

/// The selection stays on a row: moving it up or down keeps it within a non-empty view,
/// and at the first row of an empty one.
pub proof fn law_selection_in_range(a: AppState, b: AppState, moved: bool)
    requires
        a.selection < a.view_len() || a.view_len() == 0,
    ensures
        post_select_next(a, b, moved) ==> b.selection < b.view_len() || (b.view_len() == 0 && b.selection == 0),
        post_select_prev(a, b, moved) ==> b.selection < b.view_len() || (b.view_len() == 0 && b.selection == 0),
{
}

/// Directories come before files in a listing, and within each kind the names ascend
/// (compared without regard to ASCII case).
pub proof fn law_listing_order(input: Seq<FileEntry>, out: Seq<FileEntry>, idx: Seq<int>, i: int, j: int)
    requires
        stable_arrangement(input, out, idx),
        0 <= i < j < out.len(),
    ensures
        out[j].is_dir ==> out[i].is_dir,
        out[i].is_dir == out[j].is_dir ==> !crate::entries::lex_lt(
            crate::entries::sort_name(out[j]),
            crate::entries::sort_name(out[i]),
        ),
{
    assert(!entry_lt(out[j], out[i]));
}

/// Position `k` of the input is placed somewhere in the output.
pub open spec fn placed(idx: Seq<int>, k: int) -> bool {
    exists|i: int| 0 <= i < idx.len() && idx[i] == k
}

/// Sorting a listing keeps its entries: each input entry is placed once, and nothing else.
pub proof fn law_listing_permutation(input: Seq<FileEntry>, out: Seq<FileEntry>, idx: Seq<int>)
    requires
        stable_arrangement(input, out, idx),
    ensures
        out.len() == input.len(),
        forall|k: int| 0 <= k < input.len() ==> #[trigger] placed(idx, k),
{
    assert forall|k: int| 0 <= k < input.len() implies #[trigger] placed(idx, k) by {
        lemma_injective_onto(idx, input.len() as int, k);
    }
}

proof fn lemma_injective_onto(idx: Seq<int>, n: int, k: int)
    requires
        idx.len() == n,
        forall|i: int| 0 <= i < n ==> 0 <= #[trigger] idx[i] < n,
        forall|i: int, j: int| 0 <= i < j < n ==> idx[i] != idx[j],
        0 <= k < n,
    ensures
        exists|i: int| 0 <= i < n && #[trigger] idx[i] == k,
{
    // The positions map into `0..n` without repeats, so by counting they cover it.
    let s = idx.to_set();
    let range = vstd::set_lib::set_int_range(0, n);
    assert(idx.no_duplicates()) by {
        assert forall|i: int, j: int| 0 <= i < idx.len() && 0 <= j < idx.len() && i != j implies idx[i] != idx[j] by {
            if i < j {
            } else {
                assert(idx[j] != idx[i]);
            }
        }
    }
    idx.unique_seq_to_set();
    assert(s.subset_of(range)) by {
        assert forall|x: int| s.contains(x) implies range.contains(x) by {
            let i = choose|i: int| 0 <= i < idx.len() && idx[i] == x;
        }
    }
    vstd::set_lib::lemma_int_range(0, n);
    if !s.contains(k) {
        vstd::set_lib::lemma_len_subset(s, range.remove(k));
        assert(s.subset_of(range.remove(k)));
    }
    assert(s.contains(k));
}

/// With an empty search every entry and every tree row is shown, in order.
pub proof fn law_empty_search_shows_all(entries: Seq<FileEntry>, tree: Seq<TreeEntry>)
    ensures
        visible_entry_rows(entries, Seq::empty()) == all_indices(entries.len()),
        visible_tree_rows(tree, Seq::empty()) == all_indices(tree.len()),
{
}

/// The search ignores case: two non-empty queries with the same Unicode lower-case form
/// (such as `README` and `readme`, or `É` and `é`) show the same rows.
pub proof fn law_search_ignores_case(a: AppState, b: AppState)
    requires
        a.search_query@.len() > 0,
        b.search_query@.len() > 0,
        unicode_lower(a.search_query@) == unicode_lower(b.search_query@),
        a.entries == b.entries,
        a.tree_entries == b.tree_entries,
    ensures
        visible_entry_rows(a.entries@, a.query()) == visible_entry_rows(b.entries@, b.query()),
        visible_tree_rows(a.tree_entries@, a.query()) == visible_tree_rows(b.tree_entries@, b.query()),
{
}

/// With the help overlay open, keys do nothing but close it.
pub proof fn law_help_swallows_keys(event: InputEvent, in_prompt: bool, areas: Option<crate::state::PaneAreas>)
    requires
        event is Key,
    ensures
        spec_handle_event(event, in_prompt, true, areas) is None || spec_handle_event(event, in_prompt, true, areas)
            == Some(Action::ToggleHelp),
{
}

/// Nothing is deleted without the answer `y`: a delete prompt asks for a deletion only when
/// what was typed, trimmed, is `y`.
pub proof fn law_delete_needs_confirmation(a: AppState, p: Prompt, b: AppState, r: Request)
    requires
        post_execute_prompt(a, p, b, r),
        p.kind == PromptKind::Delete || p.kind == PromptKind::DeleteSelection,
        trimmed(p.input@) != "y"@,
    ensures
        !(r is Perform),
        b == (AppState { status: b.status, ..a }),
{
}

/// Pasting what was cut empties the clipboard once the last item is in place; pasting what
/// was copied keeps it for another paste.
pub proof fn law_paste_end(a: AppState, b: AppState, r: Request)
    requires
        post_paste_step(a, a.clipboard.items.len() as int, b, r),
    ensures
        a.clipboard.cut ==> b.clipboard.items@.len() == 0 && !b.clipboard.cut,
        !a.clipboard.cut ==> b.clipboard == a.clipboard,
        r == (Request::Refresh { save: false }),
{
}

/// The tree view starts with its root, expanded, at depth 0; every row after it is an entry
/// at depth 1 or more.
pub proof fn law_tree_root_first(root: String, expanded: Seq<String>, ls: Seq<DirListing>)
    requires
        tree_of(root, expanded, ls) is Ok,
    ensures
        ({
            let t = tree_of(root, expanded, ls)->Ok_0;
            &&& t.len() >= 1
            &&& t[0] == (TreeEntry { path: root, depth: 0, is_dir: true, is_expanded: true })
        }),
{
}


/// What is remembered for a directory is what is recalled for it: after remembering the
/// selection `p` for directory `dir`, looking `dir` up gives `p`, and every other directory
/// looks up as before.
pub proof fn law_remember_then_recall(mem: Seq<(String, String)>, dir: String, p: String, other: Seq<char>)
    requires
        !path_eq(dir@, other),
    ensures
        crate::state::memory_get(crate::state::memory_insert(mem, dir, p), dir@) == Some(p),
        crate::state::memory_get(crate::state::memory_insert(mem, dir, p), other)
            == crate::state::memory_get(mem, other),
    decreases mem.len(),
{
    crate::state::lemma_memory_position(mem, dir@);
    lemma_insert_get(mem, dir, p, other);
}

proof fn lemma_insert_get(mem: Seq<(String, String)>, dir: String, p: String, other: Seq<char>)
    requires
        !path_eq(dir@, other),
    ensures
        crate::state::memory_get(crate::state::memory_insert(mem, dir, p), dir@) == Some(p),
        crate::state::memory_get(crate::state::memory_insert(mem, dir, p), other)
            == crate::state::memory_get(mem, other),
    decreases mem.len(),
{
    let ins = crate::state::memory_insert(mem, dir, p);
    if mem.len() == 0 {
        assert(ins == seq![(dir, p)]);
        assert(ins.len() == 1);
        assert(ins[0] == (dir, p));
        assert(!path_eq(ins[0].0@, other));
        assert(ins.drop_first().len() == 0);
        assert(crate::state::memory_get(ins.drop_first(), other) is None);
        assert(crate::state::memory_get(ins, other) == crate::state::memory_get(mem, other));
    } else if path_eq(mem[0].0@, dir@) {
        assert(crate::state::memory_position(mem, dir@) == Some(0int));
        assert(ins[0] == (mem[0].0, p));
        assert(ins.drop_first() =~= mem.drop_first());
        let first = mem[0];
        assert(!path_eq(first.0@, other));
        assert(crate::state::memory_get(ins, other) == crate::state::memory_get(mem, other));
    } else {
        lemma_insert_get(mem.drop_first(), dir, p, other);
        crate::state::lemma_memory_position(mem.drop_first(), dir@);
        let rest = crate::state::memory_insert(mem.drop_first(), dir, p);
        match crate::state::memory_position(mem.drop_first(), dir@) {
            Some(i) => {
                assert(crate::state::memory_position(mem, dir@) == Some(i + 1));
                assert(ins.drop_first() =~= rest);
            },
            None => {
                assert(crate::state::memory_position(mem, dir@) is None);
                assert(ins.drop_first() =~= rest);
            },
        }
        assert(ins[0] == mem[0]);
        assert(crate::state::memory_get(ins, other) == crate::state::memory_get(mem, other));
    }
}


/// Looking a directory up in the selection memory depends only on which path it is.
proof fn lemma_memory_get_same_path(mem: Seq<(String, String)>, k1: Seq<char>, k2: Seq<char>)
    requires
        path_eq(k1, k2),
    ensures
        memory_get(mem, k1) == memory_get(mem, k2),
    decreases mem.len(),
{
    if mem.len() > 0 {
        lemma_memory_get_same_path(mem.drop_first(), k1, k2);
    }
}

/// Every row of a view that shows all positions, in order.
proof fn lemma_rows_of_all<T>(items: Seq<T>, n: nat)
    requires
        n <= items.len(),
        n <= usize::MAX,
    ensures
        rows_of(all_indices(n), items) == items.subrange(0, n as int),
    decreases n,
{
    if n > 0 {
        assert(all_indices(n).drop_last() =~= all_indices((n - 1) as nat));
        assert(all_indices(n).last() as int == n - 1);
        lemma_rows_of_all(items, (n - 1) as nat);
        assert(items.subrange(0, n - 1).push(items[n - 1]) =~= items.subrange(0, n as int));
    }
}

/// An entry listed in `v`: its path and kind are those of some entry of `v`.
pub open spec fn row_listed(e: TreeEntry, v: Seq<FileEntry>) -> bool {
    exists|i: int| 0 <= i < v.len() && e.path == v[i].path && e.is_dir == (#[trigger] v[i]).is_dir
}

/// Each tree row built from entries of the one listing `lp` is an entry of that listing.
proof fn lemma_rows_from_listing(
    lp: DirListing,
    v: Seq<FileEntry>,
    ch: Seq<FileEntry>,
    depth: nat,
    exp: Seq<String>,
    fuel: nat,
)
    requires
        lp.entries matches Ok(w) && w@ == v,
        forall|i: int| 0 <= i < ch.len() ==> v.contains(#[trigger] ch[i]),
        children_rows(ch, depth, exp, seq![lp], fuel) is Ok,
    ensures
        ({
            let s = children_rows(ch, depth, exp, seq![lp], fuel)->Ok_0;
            forall|k: int| 0 <= k < s.len() ==> row_listed(#[trigger] s[k], v)
        }),
    decreases fuel, ch.len(),
{
    if ch.len() > 0 {
        let row = tree_row(ch[0], depth, exp);
        assert(v.contains(ch[0]));
        let below = if row.is_expanded && fuel > 0 {
            dir_rows(ch[0].path@, depth + 1, exp, seq![lp], (fuel - 1) as nat)
        } else {
            Ok(Seq::empty())
        };
        let b = below->Ok_0;
        if row.is_expanded && fuel > 0 {
            assert(listing_for(seq![lp], ch[0].path@) == if lp.dir@ == ch[0].path@ {
                Some(lp)
            } else {
                listing_for(seq![lp].drop_first(), ch[0].path@)
            });
            assert(seq![lp].drop_first().len() == 0);
            assert forall|i: int| 0 <= i < v.len() implies v.contains(#[trigger] v[i]) by {}
            lemma_rows_from_listing(lp, v, v, depth + 1, exp, (fuel - 1) as nat);
        }
        assert forall|i: int| 0 <= i < ch.drop_first().len() implies v.contains(
            #[trigger] ch.drop_first()[i],
        ) by {
            assert(ch.drop_first()[i] == ch[i + 1]);
        }
        lemma_rows_from_listing(lp, v, ch.drop_first(), depth, exp, fuel);
        let rest = children_rows(ch.drop_first(), depth, exp, seq![lp], fuel)->Ok_0;
        let s = children_rows(ch, depth, exp, seq![lp], fuel)->Ok_0;
        assert(s == seq![row] + b + rest);
        assert forall|k: int| 0 <= k < s.len() implies row_listed(#[trigger] s[k], v) by {
            if k == 0 {
                let i = choose|i: int| 0 <= i < v.len() && v[i] == ch[0];
                assert(row_listed(s[k], v));
            } else if k < 1 + b.len() {
                assert(s[k] == b[k - 1]);
            } else {
                assert(s[k] == rest[k - 1 - b.len()]);
            }
        }
    }
}

/// Each entry of a listing has its row among the rows built from the listing.
proof fn lemma_row_of_each_entry(
    ch: Seq<FileEntry>,
    depth: nat,
    exp: Seq<String>,
    ls: Seq<DirListing>,
    fuel: nat,
    j: int,
)
    requires
        children_rows(ch, depth, exp, ls, fuel) is Ok,
        0 <= j < ch.len(),
    ensures
        ({
            let s = children_rows(ch, depth, exp, ls, fuel)->Ok_0;
            exists|k: int| 0 <= k < s.len() && #[trigger] s[k] == tree_row(ch[j], depth, exp)
        }),
    decreases ch.len(),
{
    let s = children_rows(ch, depth, exp, ls, fuel)->Ok_0;
    let row = tree_row(ch[0], depth, exp);
    let below = if row.is_expanded && fuel > 0 {
        dir_rows(ch[0].path@, depth + 1, exp, ls, (fuel - 1) as nat)
    } else {
        Ok(Seq::empty())
    };
    let b = below->Ok_0;
    let rest = children_rows(ch.drop_first(), depth, exp, ls, fuel)->Ok_0;
    assert(s == seq![row] + b + rest);
    if j == 0 {
        assert(s[0] == tree_row(ch[j], depth, exp));
    } else {
        lemma_row_of_each_entry(ch.drop_first(), depth, exp, ls, fuel, j - 1);
        assert(ch.drop_first()[j - 1] == ch[j]);
        let k = choose|k: int| 0 <= k < rest.len() && #[trigger] rest[k] == tree_row(ch[j], depth, exp);
        assert(s[1 + b.len() + k] == rest[k]);
    }
}

/// The rows of the current view of `f`, with no search, are the paths of all its entries
/// (list and columns views) or of all its tree rows (tree view).
proof fn lemma_all_rows(f: AppState)
    requires
        f.query().len() == 0,
        fresh_views(f),
    ensures
        f.view_mode == ViewMode::Tree ==> f.row_paths() == f.tree_entries@.map_values(|e: TreeEntry| e.path),
        f.view_mode != ViewMode::Tree ==> f.row_paths() == f.entries@.map_values(|e: FileEntry| e.path),
        f.view_mode == ViewMode::Tree ==> f.view_len() == f.tree_entries@.len(),
        f.view_mode != ViewMode::Tree ==> f.view_len() == f.entries@.len(),
{
    lemma_rows_of_all(f.entries@, f.entries.len() as nat);
    lemma_rows_of_all(f.tree_entries@, f.tree_entries.len() as nat);
    assert(f.entries@.subrange(0, f.entries@.len() as int) =~= f.entries@);
    assert(f.tree_entries@.subrange(0, f.tree_entries@.len() as int) =~= f.tree_entries@);
}

/// Entering the directory under the cursor and going straight back up puts the cursor on it
/// again, in every view, when there is no search and the directory is still listed in its
/// parent: the cursor is on the same path; and where the parent lists each path once, on
/// the same entry.
pub proof fn law_back_up_restores_selection(
    a: AppState,
    b: AppState,
    r1: Request,
    ld: DirListing,
    c: AppState,
    r2: Request,
    e: AppState,
    r3: Request,
    lp: DirListing,
    f: AppState,
    r4: Request,
)
    requires
        a.search_query@.len() == 0,
        a.spec_selected() matches Some((_, true)),
        post_enter_selected(a, b, r1),
        r1 == Request::ChangeDir(ld.dir),
        post_set_current_dir(b, ld, c, r2),
        post_go_parent(c, e, r3),
        r3 == Request::ChangeDir(lp.dir),
        path_eq(lp.dir@, a.current_dir@),
        lp.entries matches Ok(v) && v@.contains((FileEntry { path: ld.dir, is_dir: true })),
        tree_of(lp.dir, seq![lp.dir], seq![lp]) is Ok,
        post_set_current_dir(e, lp, f, r4),
    ensures
        f.spec_selected() matches Some((x, _)) && path_eq(x@, ld.dir@),
        (forall|i: int, j: int|
            0 <= i < j < lp.entries->Ok_0@.len() ==> !path_eq(
                (#[trigger] lp.entries->Ok_0@[i]).path@,
                (#[trigger] lp.entries->Ok_0@[j]).path@,
            )) ==> f.spec_selected() == a.spec_selected(),
{
    let d = a.spec_selected()->Some_0.0;
    let v = lp.entries->Ok_0@;
    assert(ld.dir == d);
    assert(c.current_dir == d);
    assert(c.selection_memory == b.selection_memory);
    assert(b.selection_memory@ == memory_insert(a.selection_memory@, a.current_dir, d));
    // The parent has one component fewer, so it is not the directory just left.
    assert(path_components(lp.dir@) == path_components(d@).drop_last());
    assert(!path_eq(d@, lp.dir@)) by {
        assert(path_components(lp.dir@).len() < path_components(d@).len());
    }
    let m = b.selection_memory@;
    law_remember_then_recall(a.selection_memory@, a.current_dir, d, d@);
    assert(memory_get(m, a.current_dir@) == Some(d));
    assert(memory_get(e.selection_memory@, a.current_dir@) == Some(d)) by {
        match c.spec_selected() {
            Some((x, _)) => {
                law_remember_then_recall(m, c.current_dir, x, a.current_dir@);
            },
            None => {},
        }
    }
    lemma_memory_get_same_path(e.selection_memory@, f.current_dir@, a.current_dir@);
    assert(memory_get(f.selection_memory@, f.current_dir@) == Some(d));
    assert(f.query().len() == 0);
    lemma_all_rows(f);
    let paths = f.row_paths();
    // Where `d` is among the rows: an entry of the listing, or (in the tree) its row.
    let jd = choose|j: int| 0 <= j < v.len() && v[j] == (FileEntry { path: d, is_dir: true });
    let ghost s = children_rows(v, 1, seq![lp.dir], seq![lp], 1)->Ok_0;
    let mut pos: int = jd;
    if f.view_mode == ViewMode::Tree {
        assert(tree_fuel(1) == 1);
        assert(listing_for(seq![lp], lp.dir@) == Some(lp));
        assert(f.tree_entries@ == seq![(TreeEntry { path: lp.dir, depth: 0, is_dir: true, is_expanded: true })] + s);
        lemma_row_of_each_entry(v, 1, seq![lp.dir], seq![lp], 1, jd);
        let k = choose|k: int| 0 <= k < s.len() && #[trigger] s[k] == tree_row(v[jd], 1, seq![lp.dir]);
        assert(f.tree_entries@[1 + k] == s[k]);
        pos = 1 + k;
        assert forall|i: int| 0 <= i < v.len() implies v.contains(#[trigger] v[i]) by {}
        lemma_rows_from_listing(lp, v, v, 1, seq![lp.dir], 1);
    } else {
        assert(f.entries@ == v);
    }
    assert(paths[pos] == d);
    lemma_first_position(paths, d@);
    let q = first_position(paths, d@)->Some_0;
    assert(f.selection == q);
    assert(q < f.view_len());
    if f.view_mode == ViewMode::Tree {
        assert(f.visible_tree@[q] == q as usize);
        assert(f.spec_selected() == Some((f.tree_entries@[q].path, f.tree_entries@[q].is_dir)));
        assert(path_eq(f.tree_entries@[q].path@, d@));
    } else {
        assert(f.visible_entries@[q] == q as usize);
        assert(f.spec_selected() == Some((v[q].path, v[q].is_dir)));
    }
    if forall|i: int, j: int|
        0 <= i < j < v.len() ==> !path_eq((#[trigger] v[i]).path@, (#[trigger] v[j]).path@) {
        if f.view_mode == ViewMode::Tree {
            assert(q != 0);
            assert(f.tree_entries@[q] == s[q - 1]);
            assert(row_listed(s[q - 1], v));
            let i = choose|i: int| 0 <= i < v.len() && s[q - 1].path == v[i].path && s[q - 1].is_dir == (#[trigger] v[i]).is_dir;
            if i < jd {
                assert(path_eq(v[i].path@, v[jd].path@));
            } else if i > jd {
                assert(path_eq(v[jd].path@, v[i].path@));
            }
        } else {
            if q < jd {
                assert(path_eq(v[q].path@, v[jd].path@));
            } else if q > jd {
                assert(path_eq(v[jd].path@, v[q].path@));
            }
        }
    }
}

} // verus!
