//! Text shown by the panes: view names, cut titles and file-type icons.
use vstd::prelude::*;
use crate::text::{same_text, owned, push_char, chars_of, string_from_range, to_ascii_lowercase, lower_seq};
use crate::paths::{file_name, extension, path_file_name, path_extension, name_of, file_name_or_empty};

verus! {

broadcast use vstd::string::group_string_axioms;

/// How the middle pane lays out the current directory.
#[derive(Debug, Clone, Copy, PartialEq, Eq, Structural)]
pub enum ViewMode {
    Tree,
    List,
    Columns,
}

/// The name of a view mode.
pub open spec fn spec_view_mode_label(mode: ViewMode) -> Seq<char> {
    match mode {
        ViewMode::Tree => "Tree"@,
        ViewMode::List => "List"@,
        ViewMode::Columns => "Columns"@,
    }
}

/// The name of a view mode, as shown in the middle pane's title.
pub fn view_mode_label(mode: ViewMode) -> (label: &'static str)
    ensures
        label@ == spec_view_mode_label(mode),
{
    match mode {
        ViewMode::Tree => "Tree",
        ViewMode::List => "List",
        ViewMode::Columns => "Columns",
    }
}

/// The room a title has inside a pane `width` columns wide (its border takes two).
pub open spec fn title_room(width: nat) -> nat {
    if width >= 2 { (width - 2) as nat } else { 0 }
}

/// A title cut to fit: kept whole where it fits (or where there is no room at all);
/// otherwise dots alone when at most three columns are free; otherwise `...` followed by
/// the title's last characters.
pub open spec fn spec_truncate_title(title: Seq<char>, width: nat) -> Seq<char> {
    let max = title_room(width);
    if max == 0 || title.len() <= max {
        title
    } else if max <= 3 {
        Seq::new(max, |i: int| '.')
    } else {
        "..."@ + title.subrange(title.len() - (max - 3), title.len() as int)
    }
}

/// Cuts a pane title to the pane's width.
pub fn truncate_title(title: &str, width: u16) -> (r: String)
    ensures
        r@ == spec_truncate_title(title@, width as nat),
        title_room(width as nat) > 0 ==> r@.len() <= title_room(width as nat),
{
    proof {
        reveal_strlit("...");
    }
    let max: usize = width.saturating_sub(2) as usize;
    let chars = chars_of(title);
    if max == 0 || chars.len() <= max {
        return owned(title);
    }
    if max <= 3 {
        let mut out = String::new();
        let mut i: usize = 0;
        while i < max
            invariant
                i <= max,
                out@ == Seq::new(i as nat, |j: int| '.'),
            decreases max - i,
        {
            push_char(&mut out, '.');
            i = i + 1;
            assert(out@ =~= Seq::new(i as nat, |j: int| '.'));
        }
        return out;
    }
    let mut out = owned("...");
    let tail_len = max - 3;
    let tail = string_from_range(&chars, chars.len() - tail_len, chars.len());
    out.append(tail.as_str());
    out
}

/// The glyph shown before a directory, chosen by its name.
pub open spec fn dir_icon(name: Seq<char>) -> Seq<char> {
    if name == ".git"@ {
        "\u{f02a2}"@
    } else if name == "src"@ {
        "\u{f0219}"@
    } else if name == "tests"@ || name == "test"@ {
        "\u{f0668}"@
    } else if name == "target"@ || name == "dist"@ || name == "build"@ {
        "\u{f01ee}"@
    } else if name == ".config"@ || name == "config"@ {
        "\u{f107f}"@
    } else if name == "docs"@ || name == "doc"@ {
        "\u{f0219}"@
    } else if name == "scripts"@ || name == "script"@ {
        "\u{f018d}"@
    } else if name == "assets"@ || name == "static"@ {
        "\u{f0868}"@
    } else {
        "\u{e5ff}"@
    }
}

/// The glyph for a file known by its whole name, if it is one of those.
pub open spec fn named_file_icon(name: Seq<char>) -> Option<Seq<char>> {
    if name == "Cargo.toml"@ {
        Some("\u{f03d7}"@)
    } else if name == "Cargo.lock"@ {
        Some("\u{f03d7}"@)
    } else if name == "package.json"@ {
        Some("\u{f0399}"@)
    } else if name == "package-lock.json"@ {
        Some("\u{f0399}"@)
    } else if name == "pnpm-lock.yaml"@ {
        Some("\u{f0399}"@)
    } else if name == "yarn.lock"@ {
        Some("\u{f0399}"@)
    } else if name == "Makefile"@ {
        Some("\u{f01a7}"@)
    } else if name == ".gitignore"@ {
        Some("\u{f02a2}"@)
    } else if name == "README.md"@ {
        Some("\u{f0219}"@)
    } else if name == "LICENSE"@ || name == "LICENSE.md"@ {
        Some("\u{f0306}"@)
    } else {
        None
    }
}

/// The glyph for a file chosen by its (lower-cased) extension.
pub open spec fn extension_icon(ext: Seq<char>) -> Seq<char> {
    if ext == "rs"@ {
        "\u{e7a8}"@
    } else if ext == "toml"@ {
        "\u{f03d7}"@
    } else if ext == "yaml"@ || ext == "yml"@ {
        "\u{f0219}"@
    } else if ext == "json"@ {
        "\u{f0626}"@
    } else if ext == "md"@ {
        "\u{f0219}"@
    } else if ext == "txt"@ {
        "\u{f0219}"@
    } else if ext == "lock"@ {
        "\u{f033e}"@
    } else if ext == "env"@ {
        "\u{f0221}"@
    } else if ext == "ini"@ {
        "\u{f0221}"@
    } else if ext == "cfg"@ || ext == "conf"@ {
        "\u{f0493}"@
    } else if ext == "sh"@ || ext == "bash"@ || ext == "zsh"@ || ext == "fish"@ {
        "\u{f018d}"@
    } else if ext == "ps1"@ {
        "\u{f0a0a}"@
    } else if ext == "bat"@ || ext == "cmd"@ {
        "\u{f018d}"@
    } else if ext == "c"@ {
        "\u{e61e}"@
    } else if ext == "h"@ {
        "\u{e61e}"@
    } else if ext == "cpp"@ || ext == "cc"@ || ext == "cxx"@ || ext == "hpp"@ || ext == "hh"@ || ext == "hxx"@ {
        "\u{e61d}"@
    } else if ext == "go"@ {
        "\u{e627}"@
    } else if ext == "py"@ {
        "\u{e606}"@
    } else if ext == "rb"@ {
        "\u{e791}"@
    } else if ext == "php"@ {
        "\u{e608}"@
    } else if ext == "js"@ {
        "\u{e74e}"@
    } else if ext == "ts"@ {
        "\u{e628}"@
    } else if ext == "jsx"@ {
        "\u{e7ba}"@
    } else if ext == "tsx"@ {
        "\u{e7ba}"@
    } else if ext == "java"@ {
        "\u{e738}"@
    } else if ext == "kt"@ || ext == "kts"@ {
        "\u{f1219}"@
    } else if ext == "swift"@ {
        "\u{e755}"@
    } else if ext == "cs"@ {
        "\u{f031b}"@
    } else if ext == "lua"@ {
        "\u{e620}"@
    } else if ext == "sql"@ {
        "\u{e706}"@
    } else if ext == "html"@ || ext == "htm"@ {
        "\u{e736}"@
    } else if ext == "css"@ {
        "\u{e749}"@
    } else if ext == "scss"@ || ext == "sass"@ {
        "\u{e603}"@
    } else if ext == "less"@ {
        "\u{e614}"@
    } else if ext == "xml"@ {
        "\u{f05c0}"@
    } else if ext == "svg"@ {
        "\u{f0721}"@
    } else if ext == "png"@ || ext == "jpg"@ || ext == "jpeg"@ || ext == "gif"@ || ext == "webp"@ || ext == "bmp"@ || ext == "ico"@ {
        "\u{f021f}"@
    } else if ext == "mp3"@ || ext == "wav"@ || ext == "flac"@ || ext == "ogg"@ {
        "\u{f0386}"@
    } else if ext == "mp4"@ || ext == "mkv"@ || ext == "mov"@ || ext == "avi"@ || ext == "webm"@ {
        "\u{f022b}"@
    } else if ext == "zip"@ || ext == "tar"@ || ext == "gz"@ || ext == "xz"@ || ext == "7z"@ || ext == "rar"@ {
        "\u{f05c4}"@
    } else if ext == "pdf"@ {
        "\u{f0226}"@
    } else if ext == "ttf"@ || ext == "otf"@ || ext == "woff"@ || ext == "woff2"@ {
        "\u{f06d6}"@
    } else if ext == "exe"@ || ext == "bin"@ || ext == "app"@ {
        "\u{f02b4}"@
    } else if ext == "dll"@ || ext == "so"@ || ext == "dylib"@ {
        "\u{f030b}"@
    } else if ext == "iso"@ {
        "\u{f02ca}"@
    } else {
        "\u{f0219}"@
    }
}

/// The glyph for a directory whose path has no file name.
pub open spec fn unnamed_dir_icon() -> Seq<char> {
    "\u{e5ff}"@
}

fn dir_icon_of(name: &str) -> (r: &'static str)
    ensures
        r@ == dir_icon(name@),
{
    if same_text(name, ".git") {
        "\u{f02a2}"
    } else if same_text(name, "src") {
        "\u{f0219}"
    } else if same_text(name, "tests") || same_text(name, "test") {
        "\u{f0668}"
    } else if same_text(name, "target") || same_text(name, "dist") || same_text(name, "build") {
        "\u{f01ee}"
    } else if same_text(name, ".config") || same_text(name, "config") {
        "\u{f107f}"
    } else if same_text(name, "docs") || same_text(name, "doc") {
        "\u{f0219}"
    } else if same_text(name, "scripts") || same_text(name, "script") {
        "\u{f018d}"
    } else if same_text(name, "assets") || same_text(name, "static") {
        "\u{f0868}"
    } else {
        "\u{e5ff}"
    }
}

fn named_file_icon_of(name: &str) -> (r: Option<&'static str>)
    ensures
        r.deep_view() == named_file_icon(name@),
{
    if same_text(name, "Cargo.toml") {
        Some("\u{f03d7}")
    } else if same_text(name, "Cargo.lock") {
        Some("\u{f03d7}")
    } else if same_text(name, "package.json") {
        Some("\u{f0399}")
    } else if same_text(name, "package-lock.json") {
        Some("\u{f0399}")
    } else if same_text(name, "pnpm-lock.yaml") {
        Some("\u{f0399}")
    } else if same_text(name, "yarn.lock") {
        Some("\u{f0399}")
    } else if same_text(name, "Makefile") {
        Some("\u{f01a7}")
    } else if same_text(name, ".gitignore") {
        Some("\u{f02a2}")
    } else if same_text(name, "README.md") {
        Some("\u{f0219}")
    } else if same_text(name, "LICENSE") || same_text(name, "LICENSE.md") {
        Some("\u{f0306}")
    } else {
        None
    }
}

fn extension_icon_of(ext: &str) -> (r: &'static str)
    ensures
        r@ == extension_icon(ext@),
{
    if same_text(ext, "rs") {
        "\u{e7a8}"
    } else if same_text(ext, "toml") {
        "\u{f03d7}"
    } else if same_text(ext, "yaml") || same_text(ext, "yml") {
        "\u{f0219}"
    } else if same_text(ext, "json") {
        "\u{f0626}"
    } else if same_text(ext, "md") {
        "\u{f0219}"
    } else if same_text(ext, "txt") {
        "\u{f0219}"
    } else if same_text(ext, "lock") {
        "\u{f033e}"
    } else if same_text(ext, "env") {
        "\u{f0221}"
    } else if same_text(ext, "ini") {
        "\u{f0221}"
    } else if same_text(ext, "cfg") || same_text(ext, "conf") {
        "\u{f0493}"
    } else if same_text(ext, "sh") || same_text(ext, "bash") || same_text(ext, "zsh") || same_text(ext, "fish") {
        "\u{f018d}"
    } else if same_text(ext, "ps1") {
        "\u{f0a0a}"
    } else if same_text(ext, "bat") || same_text(ext, "cmd") {
        "\u{f018d}"
    } else if same_text(ext, "c") {
        "\u{e61e}"
    } else if same_text(ext, "h") {
        "\u{e61e}"
    } else if same_text(ext, "cpp") || same_text(ext, "cc") || same_text(ext, "cxx") || same_text(ext, "hpp") || same_text(ext, "hh") || same_text(ext, "hxx") {
        "\u{e61d}"
    } else if same_text(ext, "go") {
        "\u{e627}"
    } else if same_text(ext, "py") {
        "\u{e606}"
    } else if same_text(ext, "rb") {
        "\u{e791}"
    } else if same_text(ext, "php") {
        "\u{e608}"
    } else if same_text(ext, "js") {
        "\u{e74e}"
    } else if same_text(ext, "ts") {
        "\u{e628}"
    } else if same_text(ext, "jsx") {
        "\u{e7ba}"
    } else if same_text(ext, "tsx") {
        "\u{e7ba}"
    } else if same_text(ext, "java") {
        "\u{e738}"
    } else if same_text(ext, "kt") || same_text(ext, "kts") {
        "\u{f1219}"
    } else if same_text(ext, "swift") {
        "\u{e755}"
    } else if same_text(ext, "cs") {
        "\u{f031b}"
    } else if same_text(ext, "lua") {
        "\u{e620}"
    } else if same_text(ext, "sql") {
        "\u{e706}"
    } else if same_text(ext, "html") || same_text(ext, "htm") {
        "\u{e736}"
    } else if same_text(ext, "css") {
        "\u{e749}"
    } else if same_text(ext, "scss") || same_text(ext, "sass") {
        "\u{e603}"
    } else if same_text(ext, "less") {
        "\u{e614}"
    } else if same_text(ext, "xml") {
        "\u{f05c0}"
    } else if same_text(ext, "svg") {
        "\u{f0721}"
    } else if same_text(ext, "png") || same_text(ext, "jpg") || same_text(ext, "jpeg") || same_text(ext, "gif") || same_text(ext, "webp") || same_text(ext, "bmp") || same_text(ext, "ico") {
        "\u{f021f}"
    } else if same_text(ext, "mp3") || same_text(ext, "wav") || same_text(ext, "flac") || same_text(ext, "ogg") {
        "\u{f0386}"
    } else if same_text(ext, "mp4") || same_text(ext, "mkv") || same_text(ext, "mov") || same_text(ext, "avi") || same_text(ext, "webm") {
        "\u{f022b}"
    } else if same_text(ext, "zip") || same_text(ext, "tar") || same_text(ext, "gz") || same_text(ext, "xz") || same_text(ext, "7z") || same_text(ext, "rar") {
        "\u{f05c4}"
    } else if same_text(ext, "pdf") {
        "\u{f0226}"
    } else if same_text(ext, "ttf") || same_text(ext, "otf") || same_text(ext, "woff") || same_text(ext, "woff2") {
        "\u{f06d6}"
    } else if same_text(ext, "exe") || same_text(ext, "bin") || same_text(ext, "app") {
        "\u{f02b4}"
    } else if same_text(ext, "dll") || same_text(ext, "so") || same_text(ext, "dylib") {
        "\u{f030b}"
    } else if same_text(ext, "iso") {
        "\u{f02ca}"
    } else {
        "\u{f0219}"
    }
}

/// The text of the extension of a path, the empty text where it has none.
pub open spec fn extension_of(p: Seq<char>) -> Seq<char> {
    match path_extension(p) {
        Some(e) => e,
        None => Seq::empty(),
    }
}

/// The glyph shown before an entry: for a directory by its name; for a file by its whole
/// name where it is a well-known one, else by its extension, compared in lower case.
pub open spec fn spec_icon(is_dir: bool, path: Seq<char>) -> Seq<char> {
    if is_dir {
        match path_file_name(path) {
            Some(n) => dir_icon(n),
            None => unnamed_dir_icon(),
        }
    } else {
        match named_file_icon(name_of(path)) {
            Some(g) => g,
            None => extension_icon(lower_seq(extension_of(path))),
        }
    }
}

/// The glyph shown before an entry of the tree, list and columns views.
pub fn icon_for_entry(is_dir: bool, path: &str) -> (r: &'static str)
    ensures
        r@ == spec_icon(is_dir, path@),
{
    if is_dir {
        match file_name(path) {
            Some(name) => dir_icon_of(name.as_str()),
            None => "\u{e5ff}",
        }
    } else {
        let name = file_name_or_empty(path);
        match named_file_icon_of(name.as_str()) {
            Some(g) => g,
            None => {
                let ext = match extension(path) {
                    Some(e) => e,
                    None => String::new(),
                };
                let lower = to_ascii_lowercase(ext.as_str());
                extension_icon_of(lower.as_str())
            },
        }
    }
}

} // verus!
