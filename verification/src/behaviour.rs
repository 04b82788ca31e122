//! What searching, the tree, the copy and cut keys, removing a bookmark and copying the
//! selection do, stated over their inputs and results.
use vstd::prelude::*;
use crate::entries::FileEntry;
use crate::tree::{TreeEntry, DirListing, tree_of, tree_fuel, children_rows, dir_rows, listing_for};
use crate::text::{unicode_lower, has_substring};
use crate::paths::{path_components, path_eq, path_parent, has_path, name_of};
use crate::state::AppState;
use crate::edits::{post_copy_selection, post_remove_bookmark};
use crate::visible::{visible_entry_rows, visible_tree_rows, indices_where};
use crate::commands::{Action, spec_apply};
use crate::input::{InputEvent, KeyCode, spec_handle_event};
use crate::requests::Request;

verus! {

/// The positions picked out of `0..n` are exactly those where `pred` holds, each below `n`.
proof fn lemma_indices_where(n: nat, pred: spec_fn(int) -> bool)
    requires
        n <= usize::MAX,
    ensures
        forall|k: int| 0 <= k < n ==> (indices_where(n, pred).contains(k as usize) <==> #[trigger] pred(k)),
        forall|j: int| 0 <= j < indices_where(n, pred).len() ==> (#[trigger] indices_where(n, pred)[j]) < n,
    decreases n,
{
    if n > 0 {
        let m = (n - 1) as nat;
        lemma_indices_where(m, pred);
        let prev = indices_where(m, pred);
        let cur = indices_where(n, pred);
        assert forall|k: int| 0 <= k < n implies (cur.contains(k as usize) <==> #[trigger] pred(k)) by {
            if pred(m as int) {
                assert(cur == prev.push(m as usize));
                if k < m {
                    if cur.contains(k as usize) {
                        let j = choose|j: int| 0 <= j < cur.len() && cur[j] == k as usize;
                        if j < prev.len() {
                            assert(prev[j] == cur[j]);
                        }
                    }
                    if prev.contains(k as usize) {
                        let j = choose|j: int| 0 <= j < prev.len() && prev[j] == k as usize;
                        assert(cur[j] == prev[j]);
                    }
                } else {
                    assert(cur[prev.len() as int] == m as usize);
                }
            } else {
                assert(cur == prev);
                if k == m {
                    if prev.contains(k as usize) {
                        let j = choose|j: int| 0 <= j < prev.len() && prev[j] == k as usize;
                        assert(prev[j] < m);
                    }
                }
            }
        }
        assert forall|j: int| 0 <= j < cur.len() implies (#[trigger] cur[j]) < n by {
            if pred(m as int) && j == prev.len() {
            } else {
                assert(cur[j] == prev[j]);
            }
        }
    }
}

/// Under a non-empty search the list and columns views show exactly the entries whose file
/// name (the last component of the path, not the whole path), lower-cased the Unicode way,
/// contains the lower-cased query. So text that occurs only in the directories above an
/// entry does not show it.
pub proof fn law_search_matches_file_names(entries: Seq<FileEntry>, query: Seq<char>)
    requires
        query.len() > 0,
        entries.len() <= usize::MAX,
    ensures
        forall|i: int|
            0 <= i < entries.len() ==> (visible_entry_rows(entries, query).contains(i as usize)
                <==> has_substring(unicode_lower(name_of((#[trigger] entries[i]).path@)), query)),
        forall|j: int|
            0 <= j < visible_entry_rows(entries, query).len() ==> (#[trigger] visible_entry_rows(
                entries,
                query,
            )[j]) < entries.len(),
{
    let pred = |i: int| crate::visible::name_matches(entries[i].path@, query);
    lemma_indices_where(entries.len(), pred);
    assert forall|i: int| 0 <= i < entries.len() implies (visible_entry_rows(entries, query).contains(
        i as usize,
    ) <==> has_substring(unicode_lower(name_of((#[trigger] entries[i]).path@)), query)) by {
        assert(pred(i) == has_substring(unicode_lower(name_of(entries[i].path@)), query));
    }
}

/// The same, for the rows `rebuild_visible` leaves in a state: with a non-empty search,
/// entry `i` is listed exactly when its lower-cased file name contains the lower-cased query.
pub proof fn law_search_shows_matching_names(a: AppState, b: AppState, i: int)
    requires
        a.search_query@.len() > 0,
        unicode_lower(a.search_query@).len() > 0,
        b.visible_entries@ == visible_entry_rows(a.entries@, a.query()),
        0 <= i < a.entries.len(),
    ensures
        b.visible_entries@.contains(i as usize) <==> has_substring(
            unicode_lower(name_of(a.entries@[i].path@)),
            unicode_lower(a.search_query@),
        ),
{
    law_search_matches_file_names(a.entries@, a.query());
    assert(a.entries@[i] == a.entries@[i]);
}

/// Under a non-empty search the tree view shows every row whose lower-cased file name
/// contains the lower-cased query, and the row of that entry's parent directory, so that a
/// match is shown where it sits in the tree.
pub proof fn law_search_keeps_matches_and_parents(tree: Seq<TreeEntry>, query: Seq<char>, j: int, i: int)
    requires
        query.len() > 0,
        tree.len() <= usize::MAX,
        0 <= j < tree.len(),
        0 <= i < tree.len(),
        has_substring(unicode_lower(name_of(tree[j].path@)), query),
    ensures
        visible_tree_rows(tree, query).contains(j as usize),
        path_parent(tree[j].path@) matches Some(d) && path_eq(d, tree[i].path@)
            ==> visible_tree_rows(tree, query).contains(i as usize),
{
    let pred = |k: int| crate::visible::tree_row_shown(tree, query, k);
    lemma_indices_where(tree.len(), pred);
    let p = tree[j].path@;
    assert(crate::visible::is_ancestor_or_self(p, p));
    assert(pred(j));
    if path_parent(p) is Some && path_eq(path_parent(p)->Some_0, tree[i].path@) {
        assert(crate::visible::ancestry(tree[i].path@, path_parent(p)->Some_0, p.len()));
        assert(crate::visible::is_ancestor_or_self(tree[i].path@, p));
        assert(pred(i));
    }
}

/// The keys of the file list, as documented: each key pressed outside the prompt and the
/// help overlay gives the action it is bound to, and `?` gives the help inside a prompt too.
pub proof fn law_documented_keys()
    ensures
        key_action('q') == Some(Action::Quit),
        key_action('j') == Some(Action::MoveDown),
        key_action('k') == Some(Action::MoveUp),
        key_action('l') == Some(Action::Enter),
        key_action('h') == Some(Action::UpDir),
        key_action(' ') == Some(Action::ToggleExpand),
        key_action('o') == Some(Action::OpenSelected),
        key_action('1') == Some(Action::ViewTree),
        key_action('2') == Some(Action::ViewList),
        key_action('3') == Some(Action::ViewColumns),
        key_action('v') == Some(Action::CycleView),
        key_action('b') == Some(Action::AddBookmark),
        key_action('B') == Some(Action::RemoveBookmark),
        key_action('[') == Some(Action::BookmarkPrev),
        key_action(']') == Some(Action::BookmarkNext),
        key_action('g') == Some(Action::BookmarkOpen),
        key_action('s') == Some(Action::ToggleSelect),
        key_action('A') == Some(Action::SelectAll),
        key_action('u') == Some(Action::ClearSelection),
        key_action('y') == Some(Action::CopySelection),
        key_action('x') == Some(Action::CutSelection),
        key_action('p') == Some(Action::PasteSelection),
        key_action('D') == Some(Action::DeleteSelection),
        key_action('n') == Some(Action::PromptCreateFile),
        key_action('N') == Some(Action::PromptCreateDir),
        key_action('r') == Some(Action::PromptRename),
        key_action('m') == Some(Action::PromptMove),
        key_action('c') == Some(Action::PromptCopy),
        key_action('d') == Some(Action::PromptDelete),
        key_action('/') == Some(Action::PromptSearch),
        key_action('X') == Some(Action::ClearSearch),
        key_action('?') == Some(Action::ToggleHelp),
        spec_handle_event(InputEvent::Key { code: KeyCode::Esc, press: true }, false, false, None)
            == Some(Action::ClearSearch),
        spec_handle_event(InputEvent::Key { code: KeyCode::Tab, press: true }, false, false, None)
            == Some(Action::FocusNext),
        spec_handle_event(InputEvent::Key { code: KeyCode::BackTab, press: true }, false, false, None)
            == Some(Action::FocusPrev),
        spec_handle_event(InputEvent::Key { code: KeyCode::Char('?'), press: true }, true, false, None)
            == Some(Action::ToggleHelp),
{
}

/// The number of expanded paths with more than `k` components.
pub open spec fn deeper_count(exp: Seq<String>, k: nat) -> nat
    decreases exp.len(),
{
    if exp.len() == 0 {
        0
    } else {
        deeper_count(exp.drop_last(), k) + if path_components(exp.last()@).len() > k {
            1nat
        } else {
            0nat
        }
    }
}

proof fn lemma_deeper_count(exp: Seq<String>, k: nat, x: Seq<char>)
    ensures
        deeper_count(exp, k) <= exp.len(),
        deeper_count(exp, k + 1) <= deeper_count(exp, k),
        has_path(exp, x) && path_components(x).len() == k + 1 ==> deeper_count(exp, k + 1) + 1
            <= deeper_count(exp, k),
    decreases exp.len(),
{
    if exp.len() > 0 {
        lemma_deeper_count(exp.drop_last(), k, x);
        if has_path(exp, x) && path_components(x).len() == k + 1 {
            let i = choose|i: int|
                0 <= i < exp.len() && crate::paths::path_eq((#[trigger] exp[i])@, x);
            if i < exp.len() - 1 {
                assert(exp.drop_last()[i] == exp[i]);
                assert(has_path(exp.drop_last(), x));
            } else {
                assert(exp.last() == exp[i]);
            }
        }
    }
}

/// Every entry read for a directory has one component more than the directory: its path is
/// the directory's path joined with the entry's name, as a directory read gives it.
pub open spec fn entries_one_deeper(ls: Seq<DirListing>) -> bool {
    forall|l: int, c: int|
        0 <= l < ls.len() && ls[l].entries is Ok && 0 <= c < ls[l].entries->Ok_0@.len()
            ==> path_components((#[trigger] ls[l].entries->Ok_0@[c]).path@).len()
            == path_components((#[trigger] ls[l]).dir@).len() + 1
}

proof fn lemma_listing_for(ls: Seq<DirListing>, dir: Seq<char>)
    ensures
        listing_for(ls, dir) matches Some(l) ==> l.dir@ == dir && exists|i: int|
            0 <= i < ls.len() && ls[i] == l,
    decreases ls.len(),
{
    if ls.len() > 0 && ls[0].dir@ != dir {
        lemma_listing_for(ls.drop_first(), dir);
        if let Some(l) = listing_for(ls, dir) {
            let i = choose|i: int| 0 <= i < ls.drop_first().len() && ls.drop_first()[i] == l;
            assert(ls[i + 1] == l);
        }
    }
}

/// More room to descend changes nothing below a directory, once the room covers every
/// expanded path deeper than it.
proof fn lemma_dir_rows_settled(dir: Seq<char>, depth: nat, exp: Seq<String>, ls: Seq<DirListing>, f: nat, extra: nat)
    requires
        entries_one_deeper(ls),
        f >= deeper_count(exp, path_components(dir).len()),
    ensures
        dir_rows(dir, depth, exp, ls, f) == dir_rows(dir, depth, exp, ls, f + extra),
    decreases f, 1nat, 0nat,
{
    lemma_listing_for(ls, dir);
    match listing_for(ls, dir) {
        None => {},
        Some(l) => match l.entries {
            Err(_) => {},
            Ok(v) => {
                let i = choose|i: int| 0 <= i < ls.len() && ls[i] == l;
                assert forall|c: int| 0 <= c < v@.len() implies path_components(
                    (#[trigger] v@[c]).path@,
                ).len() == path_components(dir).len() + 1 by {
                    assert(ls[i].entries->Ok_0@[c] == v@[c]);
                }
                lemma_children_rows_settled(v@, depth, exp, ls, f, extra, path_components(dir).len());
            },
        },
    }
}

proof fn lemma_children_rows_settled(
    ch: Seq<FileEntry>,
    depth: nat,
    exp: Seq<String>,
    ls: Seq<DirListing>,
    f: nat,
    extra: nat,
    k: nat,
)
    requires
        entries_one_deeper(ls),
        forall|c: int| 0 <= c < ch.len() ==> path_components((#[trigger] ch[c]).path@).len() == k + 1,
        f >= deeper_count(exp, k),
    ensures
        children_rows(ch, depth, exp, ls, f) == children_rows(ch, depth, exp, ls, f + extra),
    decreases f, 0nat, ch.len(),
{
    if ch.len() > 0 {
        let p = ch[0].path@;
        assert(path_components(p).len() == k + 1);
        lemma_deeper_count(exp, k, p);
        let expanded = ch[0].is_dir && has_path(exp, p);
        if expanded {
            assert(f > 0);
            lemma_dir_rows_settled(p, depth + 1, exp, ls, (f - 1) as nat, extra);
            assert((f - 1) as nat + extra == (f + extra - 1) as nat);
        }
        assert forall|c: int| 0 <= c < ch.drop_first().len() implies path_components(
            (#[trigger] ch.drop_first()[c]).path@,
        ).len() == k + 1 by {
            assert(ch.drop_first()[c] == ch[c + 1]);
        }
        lemma_children_rows_settled(ch.drop_first(), depth, exp, ls, f, extra, k);
    }
}

/// The tree view descends into every expanded directory, at every depth: building it with
/// more room to descend than it has gives the same rows. This holds when each entry read
/// for a directory is one component deeper than it, as a directory read gives it, so the
/// limit on descent (one level per expanded path) is never what stops it.
pub proof fn law_tree_descends_fully(root: String, exp: Seq<String>, ls: Seq<DirListing>, f: nat)
    requires
        entries_one_deeper(ls),
        exp.len() < usize::MAX,
        f >= exp.len(),
    ensures
        tree_of(root, exp, ls) == match dir_rows(root@, 1, exp, ls, f) {
            Err(e) => Err(e),
            Ok(s) => Ok(seq![(TreeEntry { path: root, depth: 0, is_dir: true, is_expanded: true })] + s),
        },
{
    lemma_deeper_count(exp, path_components(root@).len(), root@);
    assert(tree_fuel(exp.len()) == exp.len());
    lemma_dir_rows_settled(root@, 1, exp, ls, exp.len(), (f - exp.len()) as nat);
}

/// The action bound to a key pressed outside the prompt and the help overlay.
pub open spec fn key_action(c: char) -> Option<Action> {
    spec_handle_event(InputEvent::Key { code: KeyCode::Char(c), press: true }, false, false, None)
}

/// `y` copies and `x` cuts: in any state, the action bound to `y` puts the selection set
/// (or, where it is empty, the entry under the cursor) on the clipboard to be copied, and
/// the one bound to `x` puts the same paths there to be moved.
pub proof fn law_copy_and_cut_keys(a: AppState, b: AppState, r: Request, c: AppState, s: Request)
    requires
        spec_apply(a, key_action('y')->Some_0, b, r),
        spec_apply(a, key_action('x')->Some_0, c, s),
        a.selected_items.len() > 0 || a.spec_selected() is Some,
    ensures
        key_action('y') == Some(Action::CopySelection),
        key_action('x') == Some(Action::CutSelection),
        !b.clipboard.cut,
        c.clipboard.cut,
        a.selected_items.len() > 0 ==> b.clipboard.items@ == a.selected_items@
            && c.clipboard.items@ == a.selected_items@,
        a.selected_items.len() == 0 ==> b.clipboard.items@ == seq![a.spec_selected()->Some_0.0]
            && c.clipboard.items@ == seq![a.spec_selected()->Some_0.0],
        r is Idle && s is Idle,
{
    law_copy_takes_the_selection(a, false, b);
    law_copy_takes_the_selection(a, true, c);
}

/// Copying or cutting puts every selected path on the clipboard, and nothing else, in the
/// order of the selection set; with nothing selected, the entry under the cursor alone.
pub proof fn law_copy_takes_the_selection(a: AppState, cut: bool, b: AppState)
    requires
        post_copy_selection(a, cut, b),
        a.selected_items.len() > 0 || a.spec_selected() is Some,
    ensures
        b.clipboard.cut == cut,
        a.selected_items.len() > 0 ==> b.clipboard.items.len() == a.selected_items.len()
            && forall|i: int| 0 <= i < a.selected_items.len() ==> (#[trigger] b.clipboard.items@[i]) == a.selected_items@[i],
        a.selected_items.len() == 0 ==> b.clipboard.items@ == seq![a.spec_selected()->Some_0.0],
        b.selected_items == a.selected_items,
{
}

/// Removing a bookmark removes the one under the cursor: the bookmarks before it stay where
/// they are and those after it move up by one (where the cursor is past the end, the last
/// bookmark goes).
pub proof fn law_remove_bookmark_under_cursor(a: AppState, b: AppState, r: Request)
    requires
        post_remove_bookmark(a, b, r),
        a.bookmarks.len() > 0,
    ensures
        ({
            let at = if a.bookmark_index < a.bookmarks.len() {
                a.bookmark_index as int
            } else {
                a.bookmarks.len() - 1
            };
            &&& b.bookmarks.len() == a.bookmarks.len() - 1
            &&& forall|i: int| 0 <= i < at ==> (#[trigger] b.bookmarks@[i]) == a.bookmarks@[i]
            &&& forall|i: int| at <= i < b.bookmarks.len() ==> (#[trigger] b.bookmarks@[i]) == a.bookmarks@[i + 1]
        }),
        r is Save,
{
}

} // verus!
