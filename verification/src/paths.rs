//! Paths as text, and the few `std::path::Path` operations the file manager relies on.
//!
//! A path is held as a `String`. Each operation below is `std::path::Path`'s own, called on
//! `Path::new` of that text; its result is named by a spec function of the text alone. The
//! results are named rather than spelled out because `Path` parses by the rules of the
//! target it is built for (separators, prefixes, what counts as absolute).
//!
//! Two paths are the same path when their components are the same: `a/b`, `a//b`, `a/./b`
//! and `a/b/` are one path. Components are compared by their texts, which on Unix is how
//! `Path`'s own `==` compares them. Sets of paths are therefore kept as lists searched with
//! this equality (`has_path`, `insert_path`, `remove_path`) rather than hashed by text.
use vstd::prelude::*;

verus! {

/// What `Path::file_name` gives for a path: its final normal component, if any.
pub uninterp spec fn path_file_name(p: Seq<char>) -> Option<Seq<char>>;

/// What `Path::components` gives for a path, each component as its text
/// (`Component::as_os_str`).
pub uninterp spec fn path_components(p: Seq<char>) -> Seq<Seq<char>>;

/// What `Path::parent` gives for a path: the path without its final component, if any.
pub uninterp spec fn path_parent(p: Seq<char>) -> Option<Seq<char>>;

/// What `Path::extension` gives for a path: the text after the last `.` of the file name, if any.
pub uninterp spec fn path_extension(p: Seq<char>) -> Option<Seq<char>>;

/// What `Path::join` gives for a base path and a second path.
pub uninterp spec fn path_join(base: Seq<char>, rest: Seq<char>) -> Seq<char>;

/// What `Path::is_absolute` says of a path.
pub uninterp spec fn path_is_absolute(p: Seq<char>) -> bool;

/// The file name of a path as text, the empty text where it has none
/// (`file_name().unwrap_or_default()`).
pub open spec fn name_of(p: Seq<char>) -> Seq<char> {
    match path_file_name(p) {
        Some(n) => n,
        None => Seq::empty(),
    }
}

/// Calls `Path::file_name`; the claim is only that its result is the name above, as text.
#[verifier::external_body]
pub(crate) fn file_name(p: &str) -> (r: Option<String>)
    ensures
        r.deep_view() == path_file_name(p@),
{
    std::path::Path::new(p).file_name().map(|n| n.to_string_lossy().to_string())
}

/// Calls `Path::parent`. Besides naming the result, this states what its documentation
/// gives: the empty path has no parent, and a parent is the path without its final component
/// (so the path has one, and the parent is a shorter text).
#[verifier::external_body]
pub(crate) fn parent(p: &str) -> (r: Option<String>)
    ensures
        r.deep_view() == path_parent(p@),
        p@.len() == 0 ==> r is None,
        r matches Some(q) ==> q@.len() < p@.len() && path_components(p@).len() > 0
            && path_components(q@) == path_components(p@).drop_last(),
{
    std::path::Path::new(p).parent().map(|q| q.to_string_lossy().to_string())
}

/// Calls `Path::components`, giving each component's text.
#[verifier::external_body]
fn components(p: &str) -> (r: Vec<String>)
    ensures
        r@.map_values(|c: String| c@) == path_components(p@),
{
    std::path::Path::new(p).components().map(|c| c.as_os_str().to_string_lossy().to_string()).collect()
}

/// Calls `Path::extension`; the claim is only that its result is the name above, as text.
#[verifier::external_body]
pub(crate) fn extension(p: &str) -> (r: Option<String>)
    ensures
        r.deep_view() == path_extension(p@),
{
    std::path::Path::new(p).extension().map(|e| e.to_string_lossy().to_string())
}

/// Calls `Path::join`; the claim is only that its result is the name above, as text.
#[verifier::external_body]
pub(crate) fn join(base: &str, rest: &str) -> (r: String)
    ensures
        r@ == path_join(base@, rest@),
{
    std::path::Path::new(base).join(rest).to_string_lossy().to_string()
}

/// Calls `Path::is_absolute`; the claim is only that its result is the name above.
#[verifier::external_body]
pub(crate) fn is_absolute(p: &str) -> (r: bool)
    ensures
        r == path_is_absolute(p@),
{
    std::path::Path::new(p).is_absolute()
}

/// The file name of a path, the empty text where it has none.
pub fn file_name_or_empty(p: &str) -> (r: String)
    ensures
        r@ == name_of(p@),
{
    match file_name(p) {
        Some(n) => n,
        None => String::new(),
    }
}


/// `a` and `b` are the same path: their components are the same.
pub open spec fn path_eq(a: Seq<char>, b: Seq<char>) -> bool {
    path_components(a) == path_components(b)
}

/// Whether `a` and `b` are the same path (see `path_eq`).
pub fn same_path(a: &str, b: &str) -> (r: bool)
    ensures
        r == path_eq(a@, b@),
{
    let x = components(a);
    let y = components(b);
    let ghost xs = x@.map_values(|c: String| c@);
    let ghost ys = y@.map_values(|c: String| c@);
    if x.len() != y.len() {
        assert(xs.len() != ys.len());
        return false;
    }
    let mut i: usize = 0;
    while i < x.len()
        invariant
            i <= x.len() == y.len(),
            xs == x@.map_values(|c: String| c@),
            ys == y@.map_values(|c: String| c@),
            xs == path_components(a@),
            ys == path_components(b@),
            forall|j: int| 0 <= j < i ==> xs[j] == ys[j],
        decreases x.len() - i,
    {
        if !crate::text::same_text(x[i].as_str(), y[i].as_str()) {
            assert(xs[i as int] != ys[i as int]);
            return false;
        }
        i = i + 1;
    }
    assert(xs =~= ys);
    true
}

/// Some element of `list` is the path `p`.
pub open spec fn has_path(list: Seq<String>, p: Seq<char>) -> bool {
    exists|i: int| 0 <= i < list.len() && path_eq((#[trigger] list[i])@, p)
}

/// The first position in `list` that holds the path `p`, if any.
pub fn position_of_path(list: &Vec<String>, p: &str) -> (r: Option<usize>)
    ensures
        r matches Some(i) ==> i < list.len() && path_eq(list@[i as int]@, p@)
            && forall|j: int| 0 <= j < i ==> !path_eq((#[trigger] list@[j])@, p@),
        r is None ==> !has_path(list@, p@),
{
    let mut i: usize = 0;
    while i < list.len()
        invariant
            i <= list.len(),
            forall|j: int| 0 <= j < i ==> !path_eq((#[trigger] list@[j])@, p@),
        decreases list.len() - i,
    {
        if same_path(list[i].as_str(), p) {
            return Some(i);
        }
        i = i + 1;
    }
    None
}

/// Whether some element of `list` is the path `p` (`HashSet::contains`, `Vec::contains`).
pub fn contains_path(list: &Vec<String>, p: &str) -> (r: bool)
    ensures
        r == has_path(list@, p@),
{
    match position_of_path(list, p) {
        Some(i) => {
            assert(path_eq(list@[i as int]@, p@));
            true
        },
        None => false,
    }
}

/// `list` without the elements that are the path `p`, in order.
pub open spec fn without_path(list: Seq<String>, p: Seq<char>) -> Seq<String>
    decreases list.len(),
{
    if list.len() == 0 {
        Seq::empty()
    } else {
        let rest = without_path(list.drop_last(), p);
        if path_eq(list.last()@, p) {
            rest
        } else {
            rest.push(list.last())
        }
    }
}

/// `HashSet::remove` on a list: drops every element that is the path `p`.
pub fn remove_path(list: &mut Vec<String>, p: &str)
    ensures
        final(list)@ == without_path(old(list)@, p@),
{
    let mut out: Vec<String> = Vec::new();
    let mut i: usize = 0;
    while i < list.len()
        invariant
            i <= list.len(),
            list@ == old(list)@,
            out@ == without_path(list@.subrange(0, i as int), p@),
        decreases list.len() - i,
    {
        assert(list@.subrange(0, i + 1).drop_last() =~= list@.subrange(0, i as int));
        if !same_path(list[i].as_str(), p) {
            out.push(list[i].clone());
        }
        i = i + 1;
    }
    assert(list@.subrange(0, list.len() as int) =~= list@);
    *list = out;
}

/// `HashSet::insert` on a list: adds the path `p` at the end unless it is already there.
pub fn insert_path(list: &mut Vec<String>, p: String)
    ensures
        final(list)@ == if has_path(old(list)@, p@) { old(list)@ } else { old(list)@.push(p) },
{
    if !contains_path(list, p.as_str()) {
        list.push(p);
    }
}


/// A path is in a list with one more element iff it is in the list or is that element.
pub proof fn lemma_has_path_push(s: Seq<String>, e: String, x: Seq<char>)
    ensures
        has_path(s.push(e), x) == (has_path(s, x) || path_eq(e@, x)),
{
    if has_path(s, x) {
        let i = choose|i: int| 0 <= i < s.len() && path_eq((#[trigger] s[i])@, x);
        assert(s.push(e)[i] == s[i]);
    }
    if path_eq(e@, x) {
        assert(s.push(e)[s.len() as int] == e);
    }
    if has_path(s.push(e), x) {
        let i = choose|i: int| 0 <= i < s.len() + 1 && path_eq((#[trigger] s.push(e)[i])@, x);
        if i < s.len() {
            assert(s.push(e)[i] == s[i]);
        }
    }
}

/// A path is in two lists joined iff it is in one of them.
pub proof fn lemma_has_path_concat(a: Seq<String>, b: Seq<String>, x: Seq<char>)
    ensures
        has_path(a + b, x) == (has_path(a, x) || has_path(b, x)),
{
    if has_path(a, x) {
        let i = choose|i: int| 0 <= i < a.len() && path_eq((#[trigger] a[i])@, x);
        assert((a + b)[i] == a[i]);
    }
    if has_path(b, x) {
        let i = choose|i: int| 0 <= i < b.len() && path_eq((#[trigger] b[i])@, x);
        assert((a + b)[a.len() + i] == b[i]);
    }
    if has_path(a + b, x) {
        let i = choose|i: int| 0 <= i < a.len() + b.len() && path_eq((#[trigger] (a + b)[i])@, x);
        if i < a.len() {
            assert((a + b)[i] == a[i]);
        } else {
            assert((a + b)[i] == b[i - a.len()]);
        }
    }
}

} // verus!
