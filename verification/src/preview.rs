//! The text of the preview pane: a directory's summary, or a file's facts and first lines.
use vstd::prelude::*;
use vstd::utf8::{valid_utf8, decode_utf8};
use crate::text::{chars_of, owned, decimal, decimal_string};
use crate::paths::{file_name_or_empty, name_of};

verus! {

broadcast use vstd::string::group_string_axioms;

/// What was read from disk for a preview.
#[derive(Debug)]
pub enum PreviewSource {
    /// A directory, and how many entries it has.
    Directory { entry_count: usize },
    /// A file: its size in bytes, its modification time as shown (if the system gives one),
    /// and its content.
    File { size: u64, modified: Option<String>, bytes: Vec<u8> },
}

/// Calls `String::from_utf8`: the text the bytes encode, where they are valid UTF-8.
#[verifier::external_body]
fn utf8_text(bytes: Vec<u8>) -> (r: Option<String>)
    ensures
        r is Some == valid_utf8(bytes@),
        r matches Some(s) ==> s@ == decode_utf8(bytes@),
{
    String::from_utf8(bytes).ok()
}

/// The position of the first `\n` in `s`, if any.
pub open spec fn first_newline(s: Seq<char>) -> Option<int>
    decreases s.len(),
{
    if s.len() == 0 {
        None
    } else if s[0] == '\n' {
        Some(0)
    } else {
        match first_newline(s.drop_first()) {
            Some(i) => Some(i + 1),
            None => None,
        }
    }
}

/// A line without the `\r` of a `\r\n` ending.
pub open spec fn strip_cr(l: Seq<char>) -> Seq<char> {
    if l.len() > 0 && l.last() == '\r' { l.drop_last() } else { l }
}

/// `str::lines`: the text cut at each `\n`, a `\r` just before it dropped too; a last
/// line without an ending counts, an empty one after the last `\n` does not.
pub open spec fn lines_of(s: Seq<char>) -> Seq<Seq<char>>
    decreases s.len(),
{
    if s.len() == 0 {
        Seq::empty()
    } else {
        match first_newline(s) {
            None => seq![s],
            Some(i) => if 0 <= i < s.len() {
                seq![strip_cr(s.subrange(0, i))] + lines_of(s.subrange(i + 1, s.len() as int))
            } else {
                Seq::empty()
            },
        }
    }
}

/// Lines joined with `\n` between them.
pub open spec fn join_lines(ls: Seq<Seq<char>>) -> Seq<char>
    decreases ls.len(),
{
    if ls.len() == 0 {
        Seq::empty()
    } else if ls.len() == 1 {
        ls[0]
    } else {
        join_lines(ls.drop_last()) + seq!['\n'] + ls.last()
    }
}

/// The snippet of a file: its first `max_lines` lines within its first `max_bytes` bytes;
/// `[binary file]` where those bytes are not UTF-8, `[empty file]` where they hold no line.
pub open spec fn spec_snippet(bytes: Seq<u8>, max_bytes: nat, max_lines: nat) -> Seq<char> {
    let head = if bytes.len() > max_bytes { bytes.subrange(0, max_bytes as int) } else { bytes };
    if !valid_utf8(head) {
        "[binary file]"@
    } else {
        let ls = lines_of(decode_utf8(head));
        let taken = if ls.len() > max_lines { ls.subrange(0, max_lines as int) } else { ls };
        if taken.len() == 0 { "[empty file]"@ } else { join_lines(taken) }
    }
}

/// The preview of a path: `Directory`, its name and entry count; or `File`, its name,
/// size, modification time (`unknown` where there is none) and snippet.
pub open spec fn spec_preview(path: Seq<char>, source: PreviewSource, max_bytes: nat, max_lines: nat) -> Seq<char> {
    let name = name_of(path);
    match source {
        PreviewSource::Directory { entry_count } => "Directory\n"@ + name + "\nEntries: "@ + decimal(
            entry_count as nat,
        ),
        PreviewSource::File { size, modified, bytes } => {
            let m = match modified {
                Some(t) => t@,
                None => "unknown"@,
            };
            "File\n"@ + name + "\nSize: "@ + decimal(size as nat) + "\nModified: "@ + m + "\n\n"@
                + spec_snippet(bytes@, max_bytes, max_lines)
        },
    }
}

proof fn lemma_first_newline(s: Seq<char>, i: int)
    requires
        0 <= i < s.len(),
        s[i] == '\n',
        forall|j: int| 0 <= j < i ==> s[j] != '\n',
    ensures
        first_newline(s) == Some(i),
    decreases i,
{
    if i > 0 {
        assert forall|j: int| 0 <= j < i - 1 implies s.drop_first()[j] != '\n' by {
            assert(s.drop_first()[j] == s[j + 1]);
        }
        lemma_first_newline(s.drop_first(), i - 1);
    }
}

proof fn lemma_no_newline(s: Seq<char>)
    requires
        forall|j: int| 0 <= j < s.len() ==> s[j] != '\n',
    ensures
        first_newline(s) is None,
    decreases s.len(),
{
    if s.len() > 0 {
        assert forall|j: int| 0 <= j < s.len() - 1 implies s.drop_first()[j] != '\n' by {
            assert(s.drop_first()[j] == s[j + 1]);
        }
        lemma_no_newline(s.drop_first());
    }
}

/// The lines of `text` (see `lines_of`).
fn split_lines(text: &Vec<char>) -> (r: Vec<Vec<char>>)
    ensures
        r@.map_values(|l: Vec<char>| l@) == lines_of(text@),
{
    let n = text.len();
    let mut out: Vec<Vec<char>> = Vec::new();
    let mut start: usize = 0;
    let mut i: usize = 0;
    assert(text@.subrange(0, n as int) =~= text@);
    while i < n
        invariant
            start <= i <= n == text.len(),
            lines_of(text@) == out@.map_values(|l: Vec<char>| l@) + lines_of(text@.subrange(start as int, n as int)),
            forall|j: int| start <= j < i ==> text@[j] != '\n',
        decreases n - i,
    {
        if text[i] == '\n' {
            let ghost rest = text@.subrange(start as int, n as int);
            proof {
                assert forall|j: int| 0 <= j < i - start implies rest[j] != '\n' by {
                    assert(rest[j] == text@[start + j]);
                }
                lemma_first_newline(rest, i - start);
                assert(rest.subrange(0, i - start) =~= text@.subrange(start as int, i as int));
                assert(rest.subrange(i - start + 1, rest.len() as int) =~= text@.subrange(i + 1, n as int));
            }
            let mut end = i;
            if end > start && text[end - 1] == '\r' {
                end = end - 1;
            }
            let mut line: Vec<char> = Vec::new();
            let mut k = start;
            while k < end
                invariant
                    start <= k <= end <= i < n == text.len(),
                    line@ == text@.subrange(start as int, k as int),
                decreases end - k,
            {
                line.push(text[k]);
                k = k + 1;
                assert(line@ =~= text@.subrange(start as int, k as int));
            }
            proof {
                let l = text@.subrange(start as int, i as int);
                if i > start && text@[i - 1] == '\r' {
                    assert(l.last() == '\r');
                    assert(l.drop_last() =~= line@);
                } else {
                    assert(l =~= line@);
                }
            }
            let ghost before = out@.map_values(|l: Vec<char>| l@);
            out.push(line);
            assert(out@.map_values(|l: Vec<char>| l@) =~= before.push(strip_cr(text@.subrange(start as int, i as int))));
            assert(before.push(strip_cr(text@.subrange(start as int, i as int))) + lines_of(text@.subrange(i + 1, n as int))
                =~= before + (seq![strip_cr(text@.subrange(start as int, i as int))] + lines_of(text@.subrange(i + 1, n as int))));
            start = i + 1;
        }
        i = i + 1;
    }
    if start < n {
        let ghost rest = text@.subrange(start as int, n as int);
        proof {
            assert forall|j: int| 0 <= j < rest.len() implies rest[j] != '\n' by {
                assert(rest[j] == text@[start + j]);
            }
            lemma_no_newline(rest);
        }
        let mut line: Vec<char> = Vec::new();
        let mut k = start;
        while k < n
            invariant
                start <= k <= n == text.len(),
                line@ == text@.subrange(start as int, k as int),
            decreases n - k,
        {
            line.push(text[k]);
            k = k + 1;
            assert(line@ =~= text@.subrange(start as int, k as int));
        }
        let ghost before = out@.map_values(|l: Vec<char>| l@);
        out.push(line);
        assert(out@.map_values(|l: Vec<char>| l@) =~= before + seq![rest]);
    } else {
        assert(text@.subrange(start as int, n as int) =~= Seq::<char>::empty());
        assert(out@.map_values(|l: Vec<char>| l@) + Seq::<Seq<char>>::empty() =~= out@.map_values(|l: Vec<char>| l@));
    }
    out
}

/// The lines of a text (see `lines_of`).
pub fn split_lines_of(text: &Vec<char>) -> (r: Vec<Vec<char>>)
    ensures
        r@.map_values(|l: Vec<char>| l@) == lines_of(text@),
{
    split_lines(text)
}

/// The snippet shown for a file (see `spec_snippet`).
pub fn text_snippet(bytes: &Vec<u8>, max_bytes: usize, max_lines: usize) -> (r: String)
    ensures
        r@ == spec_snippet(bytes@, max_bytes as nat, max_lines as nat),
{
    proof {
        reveal_strlit("[binary file]");
        reveal_strlit("[empty file]");
    }
    let mut head = bytes.clone();
    if head.len() > max_bytes {
        head.truncate(max_bytes);
    }
    assert(head@ == if bytes@.len() > max_bytes { bytes@.subrange(0, max_bytes as int) } else { bytes@ });
    let ghost head_view = head@;
    let Some(text) = utf8_text(head) else {
        return owned("[binary file]");
    };
    let chars = chars_of(text.as_str());
    let lines = split_lines(&chars);
    let ghost all = lines@.map_values(|l: Vec<char>| l@);
    let count = if lines.len() > max_lines { max_lines } else { lines.len() };
    if count == 0 {
        return owned("[empty file]");
    }
    let mut out: Vec<char> = Vec::new();
    let mut i: usize = 0;
    while i < count
        invariant
            i <= count <= lines.len(),
            all == lines@.map_values(|l: Vec<char>| l@),
            i > 0 ==> out@ == join_lines(all.subrange(0, i as int)),
            i == 0 ==> out@.len() == 0,
        decreases count - i,
    {
        let ghost prev = out@;
        if i > 0 {
            out.push('\n');
        }
        let line = &lines[i];
        let mut k: usize = 0;
        let ghost mid = out@;
        while k < line.len()
            invariant
                k <= line.len(),
                out@ == mid + line@.subrange(0, k as int),
            decreases line.len() - k,
        {
            out.push(line[k]);
            k = k + 1;
            assert(out@ =~= mid + line@.subrange(0, k as int));
        }
        proof {
            assert(line@.subrange(0, line.len() as int) =~= line@);
            let sub = all.subrange(0, i + 1);
            assert(sub.drop_last() =~= all.subrange(0, i as int));
            assert(sub.last() == line@);
            if i > 0 {
                assert(out@ =~= join_lines(sub.drop_last()) + seq!['\n'] + sub.last());
            } else {
                assert(out@ =~= sub[0]);
            }
        }
        i = i + 1;
    }
    proof {
        if all.len() > max_lines {
            assert(all.subrange(0, count as int) =~= all.subrange(0, max_lines as int));
        } else {
            assert(all.subrange(0, count as int) =~= all);
        }
    }
    let r = crate::text::string_from_chars(&out);
    r
}

/// The preview text of `path` from what was read of it (see `spec_preview`).
pub fn build_preview(path: &str, source: &PreviewSource, max_bytes: usize, max_lines: usize) -> (r: String)
    ensures
        r@ == spec_preview(path@, *source, max_bytes as nat, max_lines as nat),
{
    let name = file_name_or_empty(path);
    match source {
        PreviewSource::Directory { entry_count } => {
            let mut s = owned("Directory\n");
            s.append(name.as_str());
            s.append("\nEntries: ");
            let c = decimal_string(*entry_count as u64);
            s.append(c.as_str());
            s
        },
        PreviewSource::File { size, modified, bytes } => {
            let m = match modified {
                Some(t) => t.clone(),
                None => owned("unknown"),
            };
            let mut s = owned("File\n");
            s.append(name.as_str());
            s.append("\nSize: ");
            let z = decimal_string(*size);
            s.append(z.as_str());
            s.append("\nModified: ");
            s.append(m.as_str());
            s.append("\n\n");
            let snippet = text_snippet(bytes, max_bytes, max_lines);
            s.append(snippet.as_str());
            s
        },
    }
}

} // verus!
