//! Which rows each view shows: all of them, or those that match the search.
use vstd::prelude::*;
use crate::entries::FileEntry;
use crate::tree::TreeEntry;
use crate::text::{unicode_lower, to_lowercase, has_substring, chars_of, contains_chars};
use crate::paths::{name_of, path_eq, path_parent, parent, has_path, contains_path, file_name_or_empty, lemma_has_path_push, lemma_has_path_concat};
use crate::state::{AppState, clamp_index};

verus! {

/// The positions `0..n` for which `pred` holds, in order.
pub open spec fn indices_where(n: nat, pred: spec_fn(int) -> bool) -> Seq<usize>
    decreases n,
{
    if n == 0 {
        Seq::empty()
    } else {
        let r = indices_where((n - 1) as nat, pred);
        if pred(n - 1) { r.push((n - 1) as usize) } else { r }
    }
}

/// The positions `0..n`, in order.
pub open spec fn all_indices(n: nat) -> Seq<usize> {
    Seq::new(n, |i: int| i as usize)
}

/// A path's file name, lower-cased the Unicode way, contains the (lower-cased) query.
pub open spec fn name_matches(path: Seq<char>, query: Seq<char>) -> bool {
    has_substring(unicode_lower(name_of(path)), query)
}

/// Whether `a` is the path `p` or one of its ancestors reached by `Path::parent` within
/// `fuel` steps.
pub open spec fn ancestry(a: Seq<char>, p: Seq<char>, fuel: nat) -> bool
    decreases fuel,
{
    path_eq(p, a) || (fuel > 0 && path_parent(p) is Some && ancestry(
        a,
        path_parent(p)->Some_0,
        (fuel - 1) as nat,
    ))
}

/// `a` is `p` or one of its ancestors. (Each `Path::parent` is shorter than its path, so
/// `p.len() + 1` steps reach them all.)
pub open spec fn is_ancestor_or_self(a: Seq<char>, p: Seq<char>) -> bool {
    ancestry(a, p, p.len() + 1)
}

/// A tree row is shown under a search when it is a matching row or an ancestor of one.
pub open spec fn tree_row_shown(tree: Seq<TreeEntry>, query: Seq<char>, i: int) -> bool {
    exists|j: int|
        0 <= j < tree.len() && name_matches(tree[j].path@, query) && #[trigger] is_ancestor_or_self(
            tree[i].path@,
            tree[j].path@,
        )
}

/// The rows of the list and columns views under a query.
pub open spec fn visible_entry_rows(entries: Seq<FileEntry>, query: Seq<char>) -> Seq<usize> {
    if query.len() == 0 {
        all_indices(entries.len())
    } else {
        indices_where(entries.len(), |i: int| name_matches(entries[i].path@, query))
    }
}

/// The rows of the tree view under a query.
pub open spec fn visible_tree_rows(tree: Seq<TreeEntry>, query: Seq<char>) -> Seq<usize> {
    if query.len() == 0 {
        all_indices(tree.len())
    } else {
        indices_where(tree.len(), |i: int| tree_row_shown(tree, query, i))
    }
}

/// The path `p` and its ancestors, as found by calling `Path::parent` until there is none.
pub fn ancestry_chain(p: &String) -> (v: Vec<String>)
    ensures
        forall|x: Seq<char>| #[trigger] has_path(v@, x) == is_ancestor_or_self(x, p@),
{
    let mut v: Vec<String> = Vec::new();
    v.push(p.clone());
    let mut cur: String = p.clone();
    let ghost mut fuel: nat = p@.len() + 1;
    assert(v@.drop_last() =~= Seq::<String>::empty());
    loop
        invariant
            v@.len() >= 1,
            v@.last() == cur,
            cur@.len() < fuel,
            forall|x: Seq<char>| is_ancestor_or_self(x, p@) == (has_path(v@.drop_last(), x) || ancestry(x, cur@, fuel)),
        decreases cur@.len(),
    {
        match parent(cur.as_str()) {
            Some(q) => {
                let ghost old_v = v@;
                let ghost old_cur = cur@;
                v.push(q.clone());
                proof {
                    assert(v@.drop_last() =~= old_v);
                    assert forall|x: Seq<char>| is_ancestor_or_self(x, p@) == (has_path(v@.drop_last(), x) || ancestry(x, q@, (fuel - 1) as nat)) by {
                        lemma_has_path_push(old_v.drop_last(), old_v.last(), x);
                        assert(old_v.drop_last().push(old_v.last()) =~= old_v);
                    }
                    fuel = (fuel - 1) as nat;
                }
                cur = q;
            },
            None => {
                proof {
                    assert forall|x: Seq<char>| #[trigger] has_path(v@, x) == is_ancestor_or_self(x, p@) by {
                        lemma_has_path_push(v@.drop_last(), v@.last(), x);
                        assert(v@.drop_last().push(v@.last()) =~= v@);
                    }
                }
                return v;
            },
        }
    }
}

fn name_key(path: &String) -> (r: Vec<char>)
    ensures
        r@ == unicode_lower(name_of(path@)),
{
    let n = file_name_or_empty(path.as_str());
    let l = to_lowercase(n.as_str());
    chars_of(l.as_str())
}

fn range_vec(n: usize) -> (r: Vec<usize>)
    ensures
        r@ == all_indices(n as nat),
{
    let mut r: Vec<usize> = Vec::new();
    let mut i: usize = 0;
    while i < n
        invariant
            i <= n,
            r@ == all_indices(i as nat),
        decreases n - i,
    {
        r.push(i);
        i = i + 1;
        assert(r@ =~= all_indices(i as nat));
    }
    r
}

/// The list view's rows under a non-empty query.
fn matching_entries(entries: &Vec<FileEntry>, query: &Vec<char>) -> (r: Vec<usize>)
    ensures
        r@ == indices_where(entries.len() as nat, |i: int| name_matches(entries@[i].path@, query@)),
{
    let mut r: Vec<usize> = Vec::new();
    let mut i: usize = 0;
    while i < entries.len()
        invariant
            i <= entries.len(),
            r@ == indices_where(i as nat, |i: int| name_matches(entries@[i].path@, query@)),
        decreases entries.len() - i,
    {
        let key = name_key(&entries[i].path);
        if contains_chars(&key, query) {
            r.push(i);
        }
        i = i + 1;
    }
    r
}

/// The tree view's rows under a non-empty query.
fn shown_tree_rows(tree: &Vec<TreeEntry>, query: &Vec<char>) -> (r: Vec<usize>)
    ensures
        r@ == indices_where(tree.len() as nat, |i: int| tree_row_shown(tree@, query@, i)),
{
    let mut shown_paths: Vec<String> = Vec::new();
    let mut j: usize = 0;
    while j < tree.len()
        invariant
            j <= tree.len(),
            forall|x: Seq<char>| #[trigger] has_path(shown_paths@, x) == exists|k: int|
                0 <= k < j && name_matches(tree@[k].path@, query@) && #[trigger] is_ancestor_or_self(
                    x,
                    tree@[k].path@,
                ),
        decreases tree.len() - j,
    {
        let key = name_key(&tree[j].path);
        let ghost before = shown_paths@;
        if contains_chars(&key, query) {
            let chain = ancestry_chain(&tree[j].path);
            let mut chain_mut = chain;
            let ghost c = chain_mut@;
            shown_paths.append(&mut chain_mut);
            proof {
                assert(shown_paths@ == before + c);
                assert forall|x: Seq<char>| #[trigger] has_path(shown_paths@, x) == exists|k: int|
                    0 <= k < j + 1 && name_matches(tree@[k].path@, query@) && #[trigger] is_ancestor_or_self(
                        x,
                        tree@[k].path@,
                    ) by {
                    lemma_has_path_concat(before, c, x);
                    if has_path(c, x) {
                        assert(is_ancestor_or_self(x, tree@[j as int].path@));
                    }
                    if exists|k: int|
                        0 <= k < j + 1 && name_matches(tree@[k].path@, query@) && #[trigger] is_ancestor_or_self(
                            x,
                            tree@[k].path@,
                        ) {
                        let k = choose|k: int|
                            0 <= k < j + 1 && name_matches(tree@[k].path@, query@) && #[trigger] is_ancestor_or_self(
                                x,
                                tree@[k].path@,
                            );
                        if k < j {
                        } else {
                            assert(has_path(c, x));
                        }
                    }
                }
            }
        } else {
            proof {
                assert forall|x: Seq<char>| #[trigger] has_path(shown_paths@, x) == exists|k: int|
                    0 <= k < j + 1 && name_matches(tree@[k].path@, query@) && #[trigger] is_ancestor_or_self(
                        x,
                        tree@[k].path@,
                    ) by {
                    if exists|k: int|
                        0 <= k < j + 1 && name_matches(tree@[k].path@, query@) && #[trigger] is_ancestor_or_self(
                            x,
                            tree@[k].path@,
                        ) {
                        let k = choose|k: int|
                            0 <= k < j + 1 && name_matches(tree@[k].path@, query@) && #[trigger] is_ancestor_or_self(
                                x,
                                tree@[k].path@,
                            );
                        assert(k < j);
                    }
                }
            }
        }
        j = j + 1;
    }
    let mut r: Vec<usize> = Vec::new();
    let mut i: usize = 0;
    while i < tree.len()
        invariant
            i <= tree.len(),
            r@ == indices_where(i as nat, |i: int| tree_row_shown(tree@, query@, i)),
            forall|x: Seq<char>| #[trigger] has_path(shown_paths@, x) == exists|k: int|
                0 <= k < tree.len() && name_matches(tree@[k].path@, query@) && #[trigger] is_ancestor_or_self(
                    x,
                    tree@[k].path@,
                ),
        decreases tree.len() - i,
    {
        if contains_path(&shown_paths, tree[i].path.as_str()) {
            r.push(i);
        }
        proof {
            let x = tree@[i as int].path@;
            if has_path(shown_paths@, x) {
                let k = choose|k: int|
                    0 <= k < tree.len() && name_matches(tree@[k].path@, query@) && #[trigger] is_ancestor_or_self(
                        x,
                        tree@[k].path@,
                    );
                assert(tree_row_shown(tree@, query@, i as int));
            }
            if tree_row_shown(tree@, query@, i as int) {
                let k = choose|k: int|
                    0 <= k < tree.len() && name_matches(tree@[k].path@, query@) && #[trigger] is_ancestor_or_self(
                        tree@[i as int].path@,
                        tree@[k].path@,
                    );
                assert(has_path(shown_paths@, x));
            }
        }
        i = i + 1;
    }
    r
}

impl AppState {
    /// The search query, lower-cased the Unicode way (the empty query stays empty).
    pub open spec fn query(self) -> Seq<char> {
        if self.search_query@.len() == 0 {
            Seq::empty()
        } else {
            unicode_lower(self.search_query@)
        }
    }

    /// Recomputes the rows of both views from the search query: every row when it is empty
    /// (the selection is then left as it is); otherwise the entries whose file name contains
    /// the query and the tree rows that are, or lead to, such an entry, ignoring case,
    /// with the selection kept within the view.
    pub fn rebuild_visible(&mut self)
        ensures
            final(self).visible_entries@ == visible_entry_rows(old(self).entries@, old(self).query()),
            final(self).visible_tree@ == visible_tree_rows(old(self).tree_entries@, old(self).query()),
            *final(self) == (AppState {
                visible_entries: final(self).visible_entries,
                visible_tree: final(self).visible_tree,
                selection: final(self).selection,
                ..*old(self)
            }),
            final(self).selection == if old(self).query().len() == 0 {
                old(self).selection
            } else {
                clamp_index(old(self).selection as int, final(self).view_len() as int)
            },
    {
        let query = if self.search_query.as_str().is_empty() {
            Vec::new()
        } else {
            let l = to_lowercase(self.search_query.as_str());
            chars_of(l.as_str())
        };
        if query.len() == 0 {
            self.visible_entries = range_vec(self.entries.len());
            self.visible_tree = range_vec(self.tree_entries.len());
            return;
        }
        self.visible_entries = matching_entries(&self.entries, &query);
        self.visible_tree = shown_tree_rows(&self.tree_entries, &query);
        self.coerce_selection();
    }
}

} // verus!
