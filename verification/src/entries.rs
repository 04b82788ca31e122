//! Directory entries and the order in which a directory listing is shown.
use vstd::prelude::*;
use crate::text::{chars_of, lower_chars, lower_seq};
use crate::paths::{file_name_or_empty, name_of};

verus! {

/// One entry of a directory listing.
#[derive(Debug, Clone)]
pub struct FileEntry {
    pub path: String,
    pub is_dir: bool,
}

impl FileEntry {
    /// A copy of this entry.
    pub fn duplicate(&self) -> (r: Self)
        ensures
            r == *self,
    {
        FileEntry { path: self.path.clone(), is_dir: self.is_dir }
    }
}

/// Lexicographic order on texts, character by character by code point. On UTF-8 text this
/// is the order in which `String::cmp` compares the bytes.
pub open spec fn lex_lt(a: Seq<char>, b: Seq<char>) -> bool
    decreases a.len(),
{
    if a.len() == 0 {
        b.len() > 0
    } else if b.len() == 0 {
        false
    } else if a[0] != b[0] {
        a[0] < b[0]
    } else {
        lex_lt(a.drop_first(), b.drop_first())
    }
}

/// `lex_lt` is irreflexive.
pub proof fn lemma_lex_irreflexive(a: Seq<char>)
    ensures
        !lex_lt(a, a),
    decreases a.len(),
{
    if a.len() > 0 {
        lemma_lex_irreflexive(a.drop_first());
    }
}

/// `lex_lt` orders any two distinct texts one way or the other.
pub proof fn lemma_lex_total(a: Seq<char>, b: Seq<char>)
    ensures
        a == b || lex_lt(a, b) || lex_lt(b, a),
    decreases a.len(),
{
    if a.len() > 0 && b.len() > 0 && a[0] == b[0] {
        lemma_lex_total(a.drop_first(), b.drop_first());
        if a.drop_first() == b.drop_first() {
            assert(a =~= seq![a[0]] + a.drop_first());
            assert(b =~= seq![b[0]] + b.drop_first());
        }
    } else if a.len() > 0 && b.len() > 0 {
    } else if a.len() == 0 && b.len() == 0 {
        assert(a =~= b);
    }
}

/// `lex_lt` is transitive.
pub proof fn lemma_lex_transitive(a: Seq<char>, b: Seq<char>, c: Seq<char>)
    requires
        lex_lt(a, b),
        lex_lt(b, c),
    ensures
        lex_lt(a, c),
    decreases a.len(),
{
    if a.len() > 0 && b.len() > 0 && c.len() > 0 && a[0] == b[0] && b[0] == c[0] {
        lemma_lex_transitive(a.drop_first(), b.drop_first(), c.drop_first());
    }
}

/// The name by which an entry is ordered: its file name, ASCII-lower-cased.
pub open spec fn sort_name(e: FileEntry) -> Seq<char> {
    lower_seq(name_of(e.path@))
}

/// The order of a listing: directories before files, then by lower-cased file name.
pub open spec fn entry_lt(a: FileEntry, b: FileEntry) -> bool {
    (a.is_dir && !b.is_dir) || (a.is_dir == b.is_dir && lex_lt(sort_name(a), sort_name(b)))
}

/// Two entries that neither precedes are ordered alike: same kind, same sort name.
pub open spec fn entry_tied(a: FileEntry, b: FileEntry) -> bool {
    !entry_lt(a, b) && !entry_lt(b, a)
}

/// The listing order is irreflexive and transitive, and entries tied in it agree on kind
/// and sort name.
pub proof fn lemma_entry_order(a: FileEntry, b: FileEntry, c: FileEntry)
    ensures
        !entry_lt(a, a),
        entry_tied(a, b) ==> a.is_dir == b.is_dir && sort_name(a) == sort_name(b),
        entry_lt(a, b) && entry_lt(b, c) ==> entry_lt(a, c),
{
    lemma_lex_irreflexive(sort_name(a));
    lemma_lex_total(sort_name(a), sort_name(b));
    if entry_lt(a, b) && entry_lt(b, c) && a.is_dir == b.is_dir && b.is_dir == c.is_dir {
        lemma_lex_transitive(sort_name(a), sort_name(b), sort_name(c));
    }
}

/// `out` is `input` stably sorted by `entry_lt`, with `idx[i]` the input position of `out[i]`.
pub open spec fn stable_arrangement(input: Seq<FileEntry>, out: Seq<FileEntry>, idx: Seq<int>) -> bool {
    &&& out.len() == input.len()
    &&& idx.len() == out.len()
    &&& forall|i: int| 0 <= i < out.len() ==> 0 <= #[trigger] idx[i] < input.len()
    &&& forall|i: int| 0 <= i < out.len() ==> #[trigger] out[i] == input[idx[i]]
    &&& forall|i: int, j: int| 0 <= i < j < out.len() ==> idx[i] != idx[j]
    &&& forall|i: int, j: int| 0 <= i < j < out.len() ==> !entry_lt(#[trigger] out[j], #[trigger] out[i])
    &&& forall|i: int, j: int| 0 <= i < j < out.len() && entry_tied(out[i], out[j])
        ==> #[trigger] idx[i] < #[trigger] idx[j]
}

fn sort_key(e: &FileEntry) -> (r: Vec<char>)
    ensures
        r@ == sort_name(*e),
{
    let name = file_name_or_empty(e.path.as_str());
    let v = chars_of(name.as_str());
    lower_chars(&v)
}

fn lex_less(a: &Vec<char>, b: &Vec<char>) -> (r: bool)
    ensures
        r == lex_lt(a@, b@),
{
    let mut i: usize = 0;
    assert(a@.skip(0) =~= a@);
    assert(b@.skip(0) =~= b@);
    while i < a.len() && i < b.len() && a[i] == b[i]
        invariant
            i <= a.len(),
            i <= b.len(),
            lex_lt(a@, b@) == lex_lt(a@.skip(i as int), b@.skip(i as int)),
        decreases a.len() - i,
    {
        assert(a@.skip(i as int).drop_first() =~= a@.skip(i + 1));
        assert(b@.skip(i as int).drop_first() =~= b@.skip(i + 1));
        i = i + 1;
    }
    assert(a@.skip(i as int).len() == a.len() - i);
    if i < a.len() && i < b.len() {
        assert(a@.skip(i as int)[0] == a@[i as int]);
        assert(b@.skip(i as int)[0] == b@[i as int]);
        a[i] < b[i]
    } else {
        i == a.len() && i < b.len()
    }
}

fn key_less(d1: bool, n1: &Vec<char>, d2: bool, n2: &Vec<char>) -> (r: bool)
    ensures
        r == ((d1 && !d2) || (d1 == d2 && lex_lt(n1@, n2@))),
{
    if d1 && !d2 {
        true
    } else if d1 == d2 {
        lex_less(n1, n2)
    } else {
        false
    }
}

/// The ordering step of `list_dir`: the entries of a directory, directories first, then by
/// file name compared without regard to ASCII case; entries that compare equal keep the
/// order in which they came (`sort_by` is stable).
pub fn sort_entries(entries: Vec<FileEntry>) -> (r: Vec<FileEntry>)
    ensures
        exists|idx: Seq<int>| stable_arrangement(entries@, r@, idx),
{
    let n = entries.len();
    let mut out: Vec<FileEntry> = Vec::new();
    let mut out_dirs: Vec<bool> = Vec::new();
    let mut out_names: Vec<Vec<char>> = Vec::new();
    let ghost mut idx: Seq<int> = Seq::empty();
    let mut k: usize = 0;
    while k < n
        invariant
            n == entries.len(),
            k <= n,
            out.len() == k,
            out_dirs.len() == k,
            out_names.len() == k,
            idx.len() == k,
            forall|i: int| 0 <= i < k ==> out_dirs@[i] == (#[trigger] out@[i]).is_dir,
            forall|i: int| 0 <= i < k ==> (#[trigger] out_names@[i])@ == sort_name(out@[i]),
            forall|i: int| 0 <= i < k ==> 0 <= #[trigger] idx[i] < k,
            forall|i: int| 0 <= i < k ==> #[trigger] out@[i] == entries@[idx[i]],
            forall|i: int, j: int| 0 <= i < j < k ==> idx[i] != idx[j],
            forall|i: int, j: int| 0 <= i < j < k ==> !entry_lt(#[trigger] out@[j], #[trigger] out@[i]),
            forall|i: int, j: int| 0 <= i < j < k && entry_tied(out@[i], out@[j])
                ==> #[trigger] idx[i] < #[trigger] idx[j],
        decreases n - k,
    {
        let x = entries[k].duplicate();
        let xd = x.is_dir;
        let xn = sort_key(&x);
        let mut p: usize = 0;
        while p < k && !key_less(xd, &xn, out_dirs[p], &out_names[p])
            invariant
                p <= k,
                out.len() == k,
                out_dirs.len() == k,
                out_names.len() == k,
                forall|i: int| 0 <= i < k ==> out_dirs@[i] == (#[trigger] out@[i]).is_dir,
                forall|i: int| 0 <= i < k ==> (#[trigger] out_names@[i])@ == sort_name(out@[i]),
                xd == x.is_dir,
                xn@ == sort_name(x),
                forall|q: int| 0 <= q < p ==> !entry_lt(x, #[trigger] out@[q]),
            decreases k - p,
        {
            p = p + 1;
        }
        let ghost old_out = out@;
        let ghost old_idx = idx;
        proof {
            if p < k {
                assert(entry_lt(x, out@[p as int]));
            }
        }
        out.insert(p, x);
        out_dirs.insert(p, xd);
        out_names.insert(p, xn);
        proof {
            idx = old_idx.insert(p as int, k as int);
            assert(out@ == old_out.insert(p as int, x));
            assert forall|i: int, j: int| 0 <= i < j < k + 1 implies !entry_lt(
                #[trigger] out@[j],
                #[trigger] out@[i],
            ) by {
                if i < p && j < p {
                } else if i < p && j == p {
                    lemma_entry_order(x, old_out[i], x);
                } else if i < p && j > p {
                    assert(out@[j] == old_out[j - 1]);
                } else if i == p {
                    assert(out@[j] == old_out[j - 1]);
                    assert(entry_lt(x, old_out[p as int]));
                    lemma_entry_order(old_out[j - 1], x, old_out[p as int]);
                    lemma_entry_order(old_out[p as int], x, x);
                } else {
                    assert(out@[i] == old_out[i - 1]);
                    assert(out@[j] == old_out[j - 1]);
                }
            }
            assert forall|i: int, j: int| 0 <= i < j < k + 1 && entry_tied(out@[i], out@[j])
                implies #[trigger] idx[i] < #[trigger] idx[j] by {
                if i == p {
                    assert(out@[j] == old_out[j - 1]);
                    assert(entry_lt(x, old_out[p as int]));
                    lemma_entry_order(x, old_out[j - 1], x);
                    if j - 1 > p {
                        assert(!entry_lt(old_out[j - 1], old_out[p as int]));
                    }
                    lemma_entry_order(old_out[p as int], old_out[p as int], x);
                } else if j == p {
                    assert(idx[i] == old_idx[i]);
                } else if i < p && j < p {
                } else if i < p {
                    assert(idx[j] == old_idx[j - 1]);
                } else {
                    assert(idx[i] == old_idx[i - 1]);
                    assert(idx[j] == old_idx[j - 1]);
                }
            }
            assert forall|i: int, j: int| 0 <= i < j < k + 1 implies idx[i] != idx[j] by {
                if i == p {
                    assert(idx[j] == old_idx[j - 1]);
                } else if j == p {
                } else if i < p && j < p {
                } else if i < p {
                    assert(idx[j] == old_idx[j - 1]);
                } else {
                    assert(idx[i] == old_idx[i - 1]);
                    assert(idx[j] == old_idx[j - 1]);
                }
            }
            assert forall|i: int| 0 <= i < k + 1 implies #[trigger] out@[i] == entries@[idx[i]] by {
                if i < p {
                } else if i == p {
                } else {
                    assert(out@[i] == old_out[i - 1]);
                    assert(idx[i] == old_idx[i - 1]);
                }
            }
            assert forall|i: int| 0 <= i < k + 1 implies 0 <= #[trigger] idx[i] < k + 1 by {
                if i > p {
                    assert(idx[i] == old_idx[i - 1]);
                }
            }
            assert forall|i: int| 0 <= i < k + 1 implies out_dirs@[i] == (#[trigger] out@[i]).is_dir by {
                if i > p {
                    assert(out@[i] == old_out[i - 1]);
                }
            }
        }
        k = k + 1;
    }
    assert(stable_arrangement(entries@, out@, idx));
    out
}

} // verus!
