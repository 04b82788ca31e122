//! The text each pane draws: row labels, the pane title, the status line and the preview.
use vstd::prelude::*;
use crate::entries::FileEntry;
use crate::tree::TreeEntry;
use crate::labels::{ViewMode, spec_icon, icon_for_entry, view_mode_label, spec_view_mode_label, truncate_title, spec_truncate_title};
use crate::state::{AppState, PromptKind};
use crate::text::{owned, push_char, chars_of};
use crate::paths::{file_name_or_empty, name_of};
use crate::preview::{lines_of, join_lines};

verus! {

broadcast use vstd::string::group_string_axioms;

/// `n` spaces.
pub open spec fn spaces(n: nat) -> Seq<char> {
    Seq::new(n, |i: int| ' ')
}

/// The mark before a tree row: `[-] ` for an expanded directory, `[+] ` for a collapsed
/// one, four spaces for a file.
pub open spec fn tree_marker(e: TreeEntry) -> Seq<char> {
    if e.is_dir {
        if e.is_expanded { "[-] "@ } else { "[+] "@ }
    } else {
        "    "@
    }
}

/// A tree row: indented two spaces per level, the mark, the icon, a space, the file name,
/// and a `/` after a directory's name.
pub open spec fn spec_tree_label(e: TreeEntry) -> Seq<char> {
    spaces(2 * e.depth as nat) + tree_marker(e) + spec_icon(e.is_dir, e.path@) + " "@ + name_of(e.path@) + (
    if e.is_dir { "/"@ } else { Seq::empty() })
}

/// A list or columns row: the icon, a space, the file name, and a `/` after a directory's.
pub open spec fn spec_list_label(e: FileEntry) -> Seq<char> {
    spec_icon(e.is_dir, e.path@) + " "@ + name_of(e.path@) + (if e.is_dir { "/"@ } else { Seq::empty() })
}

/// The label of a tree row (see `spec_tree_label`).
pub fn tree_item_label(e: &TreeEntry) -> (r: String)
    ensures
        r@ == spec_tree_label(*e),
{
    proof {
        reveal_strlit("[-] ");
        reveal_strlit("[+] ");
        reveal_strlit("    ");
        reveal_strlit(" ");
        reveal_strlit("/");
    }
    let mut s = String::new();
    let mut i: usize = 0;
    while i < e.depth
        invariant
            i <= e.depth,
            s@ == spaces(2 * i as nat),
        decreases e.depth - i,
    {
        push_char(&mut s, ' ');
        push_char(&mut s, ' ');
        i = i + 1;
        assert(s@ =~= spaces(2 * i as nat));
    }
    let marker = if e.is_dir {
        if e.is_expanded { "[-] " } else { "[+] " }
    } else {
        "    "
    };
    s.append(marker);
    s.append(icon_for_entry(e.is_dir, e.path.as_str()));
    s.append(" ");
    let name = file_name_or_empty(e.path.as_str());
    s.append(name.as_str());
    if e.is_dir {
        s.append("/");
    } else {
        assert(s@ =~= s@ + Seq::<char>::empty());
    }
    s
}

/// The label of a list or columns row (see `spec_list_label`).
pub fn list_item_label(e: &FileEntry) -> (r: String)
    ensures
        r@ == spec_list_label(*e),
{
    let mut s = owned(icon_for_entry(e.is_dir, e.path.as_str()));
    s.append(" ");
    let name = file_name_or_empty(e.path.as_str());
    s.append(name.as_str());
    if e.is_dir {
        s.append("/");
    } else {
        assert(s@ =~= s@ + Seq::<char>::empty());
    }
    s
}

/// The middle pane's title: the current directory and the view's name, cut to the width.
pub open spec fn spec_pane_title(dir: Seq<char>, mode: ViewMode, width: nat) -> Seq<char> {
    spec_truncate_title(" "@ + dir + " \u{b7} "@ + spec_view_mode_label(mode) + " "@, width)
}

/// The middle pane's title (see `spec_pane_title`).
pub fn pane_title(dir: &str, mode: ViewMode, width: u16) -> (r: String)
    ensures
        r@ == spec_pane_title(dir@, mode, width as nat),
{
    let mut t = owned(" ");
    t.append(dir);
    t.append(" \u{b7} ");
    t.append(view_mode_label(mode));
    t.append(" ");
    truncate_title(t.as_str(), width)
}

/// The row a list highlights: the selection, or the last row where it is past the end.
pub open spec fn spec_highlight(sel: usize, len: nat) -> Option<usize> {
    if len == 0 {
        None
    } else if sel < len {
        Some(sel)
    } else {
        Some((len - 1) as usize)
    }
}

/// The row a list highlights (see `spec_highlight`).
pub fn highlighted_row(sel: usize, len: usize) -> (r: Option<usize>)
    ensures
        r == spec_highlight(sel, len as nat),
{
    if len == 0 {
        None
    } else if sel < len {
        Some(sel)
    } else {
        Some(len - 1)
    }
}

/// The prompt line's label for each kind of prompt.
pub open spec fn prompt_label(kind: PromptKind) -> Seq<char> {
    match kind {
        PromptKind::CreateFile => "New file: "@,
        PromptKind::CreateDir => "New dir: "@,
        PromptKind::Rename => "Rename to: "@,
        PromptKind::Move => "Move to: "@,
        PromptKind::Copy => "Copy to: "@,
        PromptKind::Delete => "Delete? type y: "@,
        PromptKind::DeleteSelection => "Delete selection? type y: "@,
        PromptKind::Search => "Search: "@,
    }
}

/// The hint shown in the status line when there is nothing else to say.
pub open spec fn status_hint() -> Seq<char> {
    "tab pane | j/k move | s select | y/x/p copy/cut/paste | D delete sel | / search"@
}

/// The status line: the open prompt with what has been typed; else the last status
/// message; else the hint.
pub open spec fn spec_status_line(s: AppState) -> Seq<char> {
    match s.prompt {
        Some(p) => prompt_label(p.kind) + p.input@,
        None => if s.status@.len() == 0 { status_hint() } else { s.status@ },
    }
}

fn prompt_label_of(kind: PromptKind) -> (r: &'static str)
    ensures
        r@ == prompt_label(kind),
{
    match kind {
        PromptKind::CreateFile => "New file: ",
        PromptKind::CreateDir => "New dir: ",
        PromptKind::Rename => "Rename to: ",
        PromptKind::Move => "Move to: ",
        PromptKind::Copy => "Copy to: ",
        PromptKind::Delete => "Delete? type y: ",
        PromptKind::DeleteSelection => "Delete selection? type y: ",
        PromptKind::Search => "Search: ",
    }
}

/// The text of the status line (see `spec_status_line`).
pub fn status_line(s: &AppState) -> (r: String)
    ensures
        r@ == spec_status_line(*s),
{
    match &s.prompt {
        Some(p) => {
            let mut t = owned(prompt_label_of(p.kind));
            t.append(p.input.as_str());
            t
        },
        None => {
            if s.status.as_str().is_empty() {
                owned("tab pane | j/k move | s select | y/x/p copy/cut/paste | D delete sel | / search")
            } else {
                s.status.clone()
            }
        },
    }
}

/// A line as the preview pane draws it: each tab as four spaces, then cut to `width`
/// characters.
pub open spec fn fit_line(line: Seq<char>, width: nat) -> Seq<char> {
    let expanded = expand_tabs(line);
    if expanded.len() > width { expanded.subrange(0, width as int) } else { expanded }
}

/// `line.replace('\t', "    ")`.
pub open spec fn expand_tabs(line: Seq<char>) -> Seq<char>
    decreases line.len(),
{
    if line.len() == 0 {
        Seq::empty()
    } else {
        expand_tabs(line.drop_last()) + if line.last() == '\t' { spaces(4) } else { seq![line.last()] }
    }
}

/// What the preview pane draws inside a pane `width` columns wide: `No selection` for an
/// empty preview; nothing when no column is free; else each line fitted to the free width.
pub open spec fn spec_preview_content(text: Seq<char>, width: nat) -> Seq<char> {
    let content = if text.len() == 0 { "No selection"@ } else { text };
    let max = if width >= 2 { (width - 2) as nat } else { 0 };
    if max == 0 {
        Seq::empty()
    } else {
        join_lines(lines_of(content).map_values(|l: Seq<char>| fit_line(l, max)))
    }
}

fn fit_line_exec(line: &Vec<char>, width: usize) -> (r: Vec<char>)
    ensures
        r@ == fit_line(line@, width as nat),
{
    let mut out: Vec<char> = Vec::new();
    let mut i: usize = 0;
    while i < line.len()
        invariant
            i <= line.len(),
            out@ == expand_tabs(line@.subrange(0, i as int)),
        decreases line.len() - i,
    {
        assert(line@.subrange(0, i + 1).drop_last() =~= line@.subrange(0, i as int));
        if line[i] == '\t' {
            out.push(' ');
            out.push(' ');
            out.push(' ');
            out.push(' ');
        } else {
            out.push(line[i]);
        }
        i = i + 1;
        assert(out@ =~= expand_tabs(line@.subrange(0, i as int)));
    }
    assert(line@.subrange(0, line.len() as int) =~= line@);
    if out.len() > width {
        out.truncate(width);
    }
    out
}

/// What the preview pane draws (see `spec_preview_content`).
pub fn preview_content(text: &str, width: u16) -> (r: String)
    ensures
        r@ == spec_preview_content(text@, width as nat),
{
    proof {
        reveal_strlit("No selection");
    }
    let max: usize = width.saturating_sub(2) as usize;
    if max == 0 {
        return String::new();
    }
    let content = if text.is_empty() { owned("No selection") } else { owned(text) };
    let chars = chars_of(content.as_str());
    let lines = crate::preview::split_lines_of(&chars);
    let ghost all = lines@.map_values(|l: Vec<char>| l@).map_values(|l: Seq<char>| fit_line(l, max as nat));
    let mut out: Vec<char> = Vec::new();
    let mut i: usize = 0;
    while i < lines.len()
        invariant
            i <= lines.len(),
            all == lines@.map_values(|l: Vec<char>| l@).map_values(|l: Seq<char>| fit_line(l, max as nat)),
            i > 0 ==> out@ == join_lines(all.subrange(0, i as int)),
            i == 0 ==> out@.len() == 0,
        decreases lines.len() - i,
    {
        if i > 0 {
            out.push('\n');
        }
        let fitted = fit_line_exec(&lines[i], max);
        let ghost mid = out@;
        let mut k: usize = 0;
        while k < fitted.len()
            invariant
                k <= fitted.len(),
                out@ == mid + fitted@.subrange(0, k as int),
            decreases fitted.len() - k,
        {
            out.push(fitted[k]);
            k = k + 1;
            assert(out@ =~= mid + fitted@.subrange(0, k as int));
        }
        proof {
            assert(fitted@.subrange(0, fitted.len() as int) =~= fitted@);
            let sub = all.subrange(0, i + 1);
            assert(sub.drop_last() =~= all.subrange(0, i as int));
            assert(sub.last() == fitted@);
            if i > 0 {
                assert(out@ =~= join_lines(sub.drop_last()) + seq!['\n'] + sub.last());
            } else {
                assert(out@ =~= sub[0]);
            }
        }
        i = i + 1;
    }
    proof {
        assert(all.subrange(0, lines.len() as int) =~= all);
        if lines.len() == 0 {
            assert(all.len() == 0);
        }
    }
    crate::text::string_from_chars(&out)
}

} // verus!
