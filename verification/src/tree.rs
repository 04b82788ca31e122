//! The tree view: the current directory with its expanded subdirectories, depth first.
use vstd::prelude::*;
use crate::entries::FileEntry;
use crate::text::{same_text, owned};
use crate::paths::{has_path, contains_path};

verus! {

broadcast use vstd::string::group_string_axioms;

/// One row of the tree view.
#[derive(Debug, Clone)]
pub struct TreeEntry {
    pub path: String,
    pub depth: usize,
    pub is_dir: bool,
    pub is_expanded: bool,
}

/// A directory's sorted listing as read from disk, or the message of the error that reading
/// it gave.
#[derive(Debug)]
pub struct DirListing {
    pub dir: String,
    pub entries: Result<Vec<FileEntry>, String>,
}

/// The first listing read for `dir`, if any.
pub open spec fn listing_for(ls: Seq<DirListing>, dir: Seq<char>) -> Option<DirListing>
    decreases ls.len(),
{
    if ls.len() == 0 {
        None
    } else if ls[0].dir@ == dir {
        Some(ls[0])
    } else {
        listing_for(ls.drop_first(), dir)
    }
}

/// The message given for a directory that was needed but not read.
pub open spec fn unread_message() -> Seq<char> {
    "directory was not read"@
}

/// The row shown for an entry listed at `depth`.
pub open spec fn tree_row(c: FileEntry, depth: nat, expanded: Seq<String>) -> TreeEntry {
    TreeEntry {
        path: c.path,
        depth: depth as usize,
        is_dir: c.is_dir,
        is_expanded: c.is_dir && has_path(expanded, c.path@),
    }
}

/// The rows below directory `dir`, whose entries sit at `depth`: each entry, followed by the
/// rows below it where it is an expanded directory; or the first read error met, depth first.
/// At most `fuel` levels are descended.
pub open spec fn dir_rows(
    dir: Seq<char>,
    depth: nat,
    expanded: Seq<String>,
    ls: Seq<DirListing>,
    fuel: nat,
) -> Result<Seq<TreeEntry>, Seq<char>>
    decreases fuel, 1nat, 0nat,
{
    match listing_for(ls, dir) {
        None => Err(unread_message()),
        Some(l) => match l.entries {
            Err(e) => Err(e@),
            Ok(v) => children_rows(v@, depth, expanded, ls, fuel),
        },
    }
}

/// The rows for the entries `children` of one directory, in order.
pub open spec fn children_rows(
    children: Seq<FileEntry>,
    depth: nat,
    expanded: Seq<String>,
    ls: Seq<DirListing>,
    fuel: nat,
) -> Result<Seq<TreeEntry>, Seq<char>>
    decreases fuel, 0nat, children.len(),
{
    if children.len() == 0 {
        Ok(Seq::empty())
    } else {
        let row = tree_row(children[0], depth, expanded);
        let below = if row.is_expanded && fuel > 0 {
            dir_rows(children[0].path@, depth + 1, expanded, ls, (fuel - 1) as nat)
        } else {
            Ok(Seq::empty())
        };
        match below {
            Err(e) => Err(e),
            Ok(b) => match children_rows(children.drop_first(), depth, expanded, ls, fuel) {
                Err(e) => Err(e),
                Ok(rest) => Ok(seq![row] + b + rest),
            },
        }
    }
}

/// How many levels below the root the tree descends at most: one per expanded directory
/// (one fewer for a list of `usize::MAX` of them, so that depths fit in a `usize`).
pub open spec fn tree_fuel(n: nat) -> nat {
    if n < usize::MAX { n } else { (n - 1) as nat }
}

/// The whole tree under `root`: the root row, then the rows below it, descending at most as
/// many levels as there are expanded directories.
pub open spec fn tree_of(root: String, expanded: Seq<String>, ls: Seq<DirListing>) -> Result<
    Seq<TreeEntry>,
    Seq<char>,
> {
    match dir_rows(root@, 1, expanded, ls, tree_fuel(expanded.len())) {
        Err(e) => Err(e),
        Ok(s) => Ok(seq![TreeEntry { path: root, depth: 0, is_dir: true, is_expanded: true }] + s),
    }
}

/// `acc` followed by the rows of `r`, or its error.
pub open spec fn after(acc: Seq<TreeEntry>, r: Result<Seq<TreeEntry>, Seq<char>>) -> Result<
    Seq<TreeEntry>,
    Seq<char>,
> {
    match r {
        Err(e) => Err(e),
        Ok(s) => Ok(acc + s),
    }
}

/// The position of the first listing read for `dir`.
pub fn find_listing(listings: &Vec<DirListing>, dir: &str) -> (r: Option<usize>)
    ensures
        r matches Some(i) ==> i < listings.len() && listing_for(listings@, dir@) == Some(
            listings@[i as int],
        ),
        r is None ==> listing_for(listings@, dir@) is None,
{
    let mut i: usize = 0;
    assert(listings@.skip(0) =~= listings@);
    while i < listings.len()
        invariant
            i <= listings.len(),
            listing_for(listings@, dir@) == listing_for(listings@.skip(i as int), dir@),
        decreases listings.len() - i,
    {
        assert(listings@.skip(i as int).drop_first() =~= listings@.skip(i + 1));
        if same_text(listings[i].dir.as_str(), dir) {
            return Some(i);
        }
        i = i + 1;
    }
    None
}

/// Appends to `out` the rows below `path` (see `dir_rows`), reading listings from `listings`.
pub fn append_children(
    path: &String,
    depth: usize,
    expanded: &Vec<String>,
    listings: &Vec<DirListing>,
    out: &mut Vec<TreeEntry>,
    fuel: usize,
) -> (r: Result<(), String>)
    requires
        depth + fuel <= usize::MAX,
    ensures
        match (r, dir_rows(path@, depth as nat, expanded@, listings@, fuel as nat)) {
            (Ok(_), Ok(s)) => final(out)@ == old(out)@ + s,
            (Err(e), Err(m)) => e@ == m,
            _ => false,
        },
        r is Err ==> old(out)@.len() <= final(out)@.len()
            && final(out)@.subrange(0, old(out)@.len() as int) == old(out)@,
    decreases fuel,
{
    let ghost ls = listings@;
    let Some(li) = find_listing(listings, path.as_str()) else {
        return Err(owned("directory was not read"));
    };
    let children = match &listings[li].entries {
        Ok(v) => v,
        Err(e) => {
            return Err(e.clone());
        },
    };
    let ghost c = children@;
    let ghost out0 = out@;
    assert(dir_rows(path@, depth as nat, expanded@, ls, fuel as nat) == children_rows(
        c,
        depth as nat,
        expanded@,
        ls,
        fuel as nat,
    ));
    let ghost mut acc: Seq<TreeEntry> = Seq::empty();
    assert(c.skip(0) =~= c);
    assert(acc + Seq::<TreeEntry>::empty() =~= acc);
    let mut i: usize = 0;
    while i < children.len()
        invariant
            i <= children.len(),
            c == children@,
            ls == listings@,
            dir_rows(path@, depth as nat, expanded@, ls, fuel as nat) == children_rows(
                c,
                depth as nat,
                expanded@,
                ls,
                fuel as nat,
            ),
            depth + fuel <= usize::MAX,
            out@ == out0 + acc,
            out0 == old(out)@,
            children_rows(c, depth as nat, expanded@, ls, fuel as nat) == after(
                acc,
                children_rows(c.skip(i as int), depth as nat, expanded@, ls, fuel as nat),
            ),
        decreases children.len() - i,
    {
        let child = &children[i];
        let ghost rest = c.skip(i as int);
        assert(rest[0] == child);
        assert(rest.drop_first() =~= c.skip(i + 1));
        let is_expanded = child.is_dir && contains_path(expanded, child.path.as_str());
        let row = TreeEntry {
            path: child.path.clone(),
            depth: depth,
            is_dir: child.is_dir,
            is_expanded: is_expanded,
        };
        assert(row == tree_row(*child, depth as nat, expanded@));
        out.push(row);
        let ghost mid = out@;
        if is_expanded && fuel > 0 {
            let sub = append_children(&child.path, depth + 1, expanded, listings, out, fuel - 1);
            match sub {
                Err(e) => {
                    assert(children_rows(rest, depth as nat, expanded@, ls, fuel as nat) == Err::<
                        Seq<TreeEntry>,
                        Seq<char>,
                    >(e@));
                    assert(mid == (out0 + acc).push(row));
                    assert(out@.subrange(0, mid.len() as int) == mid);
                    assert(out@.subrange(0, out0.len() as int) =~= out@.subrange(0, mid.len() as int).subrange(0, out0.len() as int));
                    assert(mid.subrange(0, out0.len() as int) =~= out0);
                    return Err(e);
                },
                Ok(_) => {},
            }
        }
        proof {
            let below = if is_expanded && fuel > 0 {
                dir_rows(child.path@, (depth + 1) as nat, expanded@, ls, (fuel - 1) as nat)
            } else {
                Ok(Seq::empty())
            };
            let b = below->Ok_0;
            assert(out@ == mid + b);
            assert(out@ =~= out0 + (acc + (seq![row] + b)));
            assert forall|t: Result<Seq<TreeEntry>, Seq<char>>| true implies after(acc, after(seq![row] + b, t)) == after(acc + (seq![row] + b), t) by {
                match t {
                    Ok(s) => { assert(acc + (seq![row] + b + s) =~= acc + (seq![row] + b) + s); },
                    Err(_) => {},
                }
            }
            match children_rows(c.skip(i + 1), depth as nat, expanded@, ls, fuel as nat) {
                Ok(s) => {
                    assert(seq![row] + b + s =~= (seq![row] + b) + s);
                },
                Err(_) => {},
            }
            acc = acc + (seq![row] + b);
        }
        i = i + 1;
    }
    proof {
        assert(c.skip(i as int) =~= Seq::<FileEntry>::empty());
        assert(acc + Seq::<TreeEntry>::empty() =~= acc);
    }
    Ok(())
}

/// The tree view's rows for `root` (see `tree_of`), reading listings from `listings`.
pub fn build_tree_entries(root: &String, expanded: &Vec<String>, listings: &Vec<DirListing>) -> (r:
    Result<Vec<TreeEntry>, String>)
    ensures
        match (r, tree_of(*root, expanded@, listings@)) {
            (Ok(v), Ok(s)) => v@ == s,
            (Err(e), Err(m)) => e@ == m,
            _ => false,
        },
{
    let mut out: Vec<TreeEntry> = Vec::new();
    out.push(TreeEntry { path: root.clone(), depth: 0, is_dir: true, is_expanded: true });
    let ghost first = out@;
    let fuel = if expanded.len() < usize::MAX { expanded.len() } else { expanded.len() - 1 };
    match append_children(root, 1, expanded, listings, &mut out, fuel) {
        Ok(_) => Ok(out),
        Err(e) => Err(e),
    }
}

} // verus!
