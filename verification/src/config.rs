//! The configuration file's content, the default openers, and choosing how to open a file.
use vstd::prelude::*;
use crate::text::{eq_ignore_ascii_case, lower_seq, owned, to_ascii_lowercase, chars_of, replace_all, replace_chars, string_from_chars};
use crate::paths::{extension, join, path_join};
use crate::labels::extension_of;

verus! {

broadcast use vstd::string::group_string_axioms;

/// A program that opens files with given extensions.
#[derive(Debug, Clone)]
pub struct Opener {
    pub name: String,
    pub extensions: Vec<String>,
    pub command: String,
    pub args: Vec<String>,
}

/// The content of the configuration file.
#[derive(Debug)]
pub struct Config {
    pub bookmarks: Vec<String>,
    pub last_dir: Option<String>,
    pub openers: Vec<Opener>,
}

/// The texts of a list of strings.
pub open spec fn texts(v: Seq<String>) -> Seq<Seq<char>> {
    v.map_values(|s: String| s@)
}

/// A copy of a list of strings.
pub fn copy_strings(v: &Vec<String>) -> (r: Vec<String>)
    ensures
        r@ == v@,
{
    let mut r: Vec<String> = Vec::new();
    let mut i: usize = 0;
    while i < v.len()
        invariant
            i <= v.len(),
            r@ == v@.subrange(0, i as int),
        decreases v.len() - i,
    {
        r.push(v[i].clone());
        i = i + 1;
        assert(r@ =~= v@.subrange(0, i as int));
    }
    assert(v@.subrange(0, v.len() as int) =~= v@);
    r
}

impl Opener {
    /// An opener with the same name, extensions, command and arguments.
    pub open spec fn same_as(self, other: Opener) -> bool {
        &&& self.name == other.name
        &&& self.extensions@ == other.extensions@
        &&& self.command == other.command
        &&& self.args@ == other.args@
    }

    /// A copy of this opener.
    pub fn duplicate(&self) -> (r: Opener)
        ensures
            r.same_as(*self),
    {
        Opener {
            name: self.name.clone(),
            extensions: copy_strings(&self.extensions),
            command: self.command.clone(),
            args: copy_strings(&self.args),
        }
    }

    /// Whether this opener lists `ext` among its extensions, ignoring ASCII case.
    pub open spec fn handles(self, ext: Seq<char>) -> bool {
        exists|j: int|
            0 <= j < self.extensions.len() && lower_seq((#[trigger] self.extensions@[j])@)
                == lower_seq(ext)
    }
}

/// A copy of a list of openers.
pub fn copy_openers(v: &Vec<Opener>) -> (r: Vec<Opener>)
    ensures
        r.len() == v.len(),
        forall|i: int| 0 <= i < v.len() ==> (#[trigger] r@[i]).same_as(v@[i]),
{
    let mut r: Vec<Opener> = Vec::new();
    let mut i: usize = 0;
    while i < v.len()
        invariant
            i <= v.len(),
            r.len() == i,
            forall|j: int| 0 <= j < i ==> (#[trigger] r@[j]).same_as(v@[j]),
        decreases v.len() - i,
    {
        r.push(v[i].duplicate());
        i = i + 1;
    }
    r
}

/// An opener with the given name, extensions, command and arguments, as texts.
pub open spec fn opener_is(
    o: Opener,
    name: Seq<char>,
    exts: Seq<Seq<char>>,
    command: Seq<char>,
    args: Seq<Seq<char>>,
) -> bool {
    &&& o.name@ == name
    &&& texts(o.extensions@) == exts
    &&& o.command@ == command
    &&& texts(o.args@) == args
}

fn strings(v: &Vec<&str>) -> (r: Vec<String>)
    ensures
        texts(r@) == v@.map_values(|s: &str| s@),
{
    let mut r: Vec<String> = Vec::new();
    let mut i: usize = 0;
    while i < v.len()
        invariant
            i <= v.len(),
            r.len() == i,
            forall|k: int| 0 <= k < i ==> (#[trigger] r@[k])@ == v@[k]@,
        decreases v.len() - i,
    {
        r.push(owned(v[i]));
        i = i + 1;
    }
    assert(texts(r@) =~= v@.map_values(|s: &str| s@));
    r
}

/// The extensions the default image opener handles.
pub open spec fn image_extensions() -> Seq<Seq<char>> {
    seq!["png"@, "jpg"@, "jpeg"@, "gif"@, "webp"@, "bmp"@, "svg"@, "ico"@]
}

/// The extensions the default text opener handles.
pub open spec fn text_extensions() -> Seq<Seq<char>> {
    seq![
        "txt"@, "md"@, "rs"@, "toml"@, "yaml"@, "yml"@, "json"@, "js"@, "ts"@, "jsx"@, "tsx"@,
        "py"@, "go"@, "c"@, "h"@, "cpp"@, "hpp"@, "java"@, "kt"@, "kts"@, "cs"@, "html"@,
        "css"@, "scss"@, "sql"@, "sh"@, "bash"@, "zsh"@, "fish"@, "ini"@, "conf"@, "cfg"@,
        "env"@,
    ]
}

/// The configuration written when none can be read: no bookmarks, no last directory, and
/// three openers: `zathura` for PDF, `feh` for images and `nvim` for text, each called with
/// the file's path as its one argument.
pub fn default_config() -> (c: Config)
    ensures
        c.bookmarks@.len() == 0,
        c.last_dir is None,
        c.openers@.len() == 3,
        opener_is(c.openers@[0], "pdf"@, seq!["pdf"@], "zathura"@, seq!["{path}"@]),
        opener_is(c.openers@[1], "images"@, image_extensions(), "feh"@, seq!["{path}"@]),
        opener_is(c.openers@[2], "text"@, text_extensions(), "nvim"@, seq!["{path}"@]),
{
    let pdf = Opener {
        name: owned("pdf"),
        extensions: strings(&vec!["pdf"]),
        command: owned("zathura"),
        args: strings(&vec!["{path}"]),
    };
    let image_list = vec!["png", "jpg", "jpeg", "gif", "webp", "bmp", "svg", "ico"];
    assert(image_list@.map_values(|s: &str| s@) =~= image_extensions());
    let images = Opener {
        name: owned("images"),
        extensions: strings(&image_list),
        command: owned("feh"),
        args: strings(&vec!["{path}"]),
    };
    let text_list = vec![
        "txt", "md", "rs", "toml", "yaml", "yml", "json", "js", "ts", "jsx", "tsx", "py", "go",
        "c", "h", "cpp", "hpp", "java", "kt", "kts", "cs", "html", "css", "scss", "sql", "sh",
        "bash", "zsh", "fish", "ini", "conf", "cfg", "env",
    ];
    assert(text_list@.map_values(|s: &str| s@) =~= text_extensions());
    let text = Opener {
        name: owned("text"),
        extensions: strings(&text_list),
        command: owned("nvim"),
        args: strings(&vec!["{path}"]),
    };
    assert(texts(pdf.extensions@) =~= seq!["pdf"@]);
    assert(texts(pdf.args@) =~= seq!["{path}"@]);
    assert(texts(images.args@) =~= seq!["{path}"@]);
    assert(texts(text.args@) =~= seq!["{path}"@]);
    Config { bookmarks: Vec::new(), last_dir: None, openers: vec![pdf, images, text] }
}

/// The position of the first opener for a path's extension: none for a path without an
/// extension (or with an empty one); else the first opener listing it, ignoring ASCII case.
pub open spec fn opener_index(openers: Seq<Opener>, path: Seq<char>) -> Option<int> {
    let ext = lower_seq(extension_of(path));
    if ext.len() == 0 {
        None
    } else if exists|i: int| 0 <= i < openers.len() && (#[trigger] openers[i]).handles(ext) {
        Some(choose|i: int| 0 <= i < openers.len() && (#[trigger] openers[i]).handles(ext)
            && forall|j: int| 0 <= j < i ==> !(#[trigger] openers[j]).handles(ext))
    } else {
        None
    }
}

fn handles_exec(o: &Opener, ext: &str) -> (r: bool)
    ensures
        r == o.handles(ext@),
{
    let mut j: usize = 0;
    while j < o.extensions.len()
        invariant
            j <= o.extensions.len(),
            forall|k: int| 0 <= k < j ==> lower_seq((#[trigger] o.extensions@[k])@) != lower_seq(ext@),
        decreases o.extensions.len() - j,
    {
        if eq_ignore_ascii_case(o.extensions[j].as_str(), ext) {
            return true;
        }
        j = j + 1;
    }
    false
}

/// The opener configured for a file, chosen by its extension (see `opener_index`).
pub fn find_opener(openers: &Vec<Opener>, path: &str) -> (r: Option<Opener>)
    ensures
        match (r, opener_index(openers@, path@)) {
            (None, None) => true,
            (Some(o), Some(i)) => 0 <= i < openers.len() && o.same_as(openers@[i]),
            _ => false,
        },
{
    let ext = match extension(path) {
        Some(e) => e,
        None => String::new(),
    };
    let ext = to_ascii_lowercase(ext.as_str());
    if ext.as_str().is_empty() {
        return None;
    }
    assert(ext@.len() != 0);
    let mut i: usize = 0;
    while i < openers.len()
        invariant
            i <= openers.len(),
            ext@ == lower_seq(extension_of(path@)),
            ext@.len() != 0,
            forall|j: int| 0 <= j < i ==> !(#[trigger] openers@[j]).handles(ext@),
        decreases openers.len() - i,
    {
        if handles_exec(&openers[i], ext.as_str()) {
            let o = openers[i].duplicate();
            proof {
                let e = lower_seq(extension_of(path@));
                assert(openers@[i as int].handles(e));
                assert(exists|k: int| 0 <= k < openers.len() && (#[trigger] openers@[k]).handles(e));
                let k = choose|k: int| 0 <= k < openers.len() && (#[trigger] openers@[k]).handles(e)
                    && forall|j: int| 0 <= j < k ==> !(#[trigger] openers@[j]).handles(e);
                assert(forall|j: int| 0 <= j < i ==> !(#[trigger] openers@[j]).handles(e));
                if k < i {
                    assert(!openers@[k].handles(e));
                } else if k > i {
                    assert(!openers@[i as int].handles(e));
                }
                assert(k == i);
            }
            return Some(o);
        }
        i = i + 1;
    }
    None
}

/// An opener argument for the file at `path`: every `{path}` in it replaced by the path.
pub open spec fn with_path(arg: Seq<char>, path: Seq<char>) -> Seq<char> {
    replace_all(arg, "{path}"@, path)
}

/// The arguments an opener is run with for the file at `path`: the path alone where the
/// opener lists no arguments; else its arguments, with every `{path}` in each replaced.
pub open spec fn opener_argv(args: Seq<String>, path: Seq<char>) -> Seq<Seq<char>> {
    if args.len() == 0 {
        seq![path]
    } else {
        args.map_values(|a: String| with_path(a@, path))
    }
}

/// The arguments an opener is run with (see `opener_argv`).
pub fn opener_args(args: &Vec<String>, path: &str) -> (r: Vec<String>)
    ensures
        texts(r@) == opener_argv(args@, path@),
{
    proof {
        reveal_strlit("{path}");
    }
    let mut out: Vec<String> = Vec::new();
    if args.len() == 0 {
        out.push(owned(path));
        assert(texts(out@) =~= seq![path@]);
        return out;
    }
    let pat = chars_of("{path}");
    let rep = chars_of(path);
    let mut i: usize = 0;
    while i < args.len()
        invariant
            i <= args.len(),
            args.len() > 0,
            pat@ == "{path}"@,
            pat.len() > 0,
            rep@ == path@,
            out.len() == i,
            forall|k: int| 0 <= k < i ==> (#[trigger] out@[k])@ == with_path(args@[k]@, path@),
        decreases args.len() - i,
    {
        let a = chars_of(args[i].as_str());
        let replaced = replace_chars(&a, &pat, &rep);
        out.push(string_from_chars(&replaced));
        i = i + 1;
    }
    assert(texts(out@) =~= args@.map_values(|a: String| with_path(a@, path@)));
    out
}

/// Where the configuration file lives: `chatak/config.json` under `XDG_CONFIG_HOME` where
/// that is set, else under `.config` in `HOME` (or in `.` where `HOME` is not set either).
pub open spec fn spec_config_path(xdg: Option<Seq<char>>, home: Option<Seq<char>>) -> Seq<char> {
    match xdg {
        Some(dir) => path_join(path_join(dir, "chatak"@), "config.json"@),
        None => {
            let h = match home {
                Some(h) => h,
                None => "."@,
            };
            path_join(path_join(path_join(h, ".config"@), "chatak"@), "config.json"@)
        },
    }
}

/// The path of the configuration file, from the values of `XDG_CONFIG_HOME` and `HOME`.
pub fn config_path_from(xdg: Option<String>, home: Option<String>) -> (r: String)
    ensures
        r@ == spec_config_path(xdg.deep_view(), home.deep_view()),
{
    match xdg {
        Some(dir) => {
            let a = join(dir.as_str(), "chatak");
            join(a.as_str(), "config.json")
        },
        None => {
            let h = match home {
                Some(h) => h,
                None => owned("."),
            };
            let a = join(h.as_str(), ".config");
            let b = join(a.as_str(), "chatak");
            join(b.as_str(), "config.json")
        },
    }
}

} // verus!
