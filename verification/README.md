# Chatak

A terminal file manager with a bookmarks pane, a tree / list / columns browser, a preview
pane and a status line. Its decision logic is a Verus library, proved against contracts;
a thin program around it does the terminal and disk work.

## Layout

- `src/` — the verified library (`chatak`).
  - `text`, `paths`: text helpers, and the few `std::path::Path` operations used (paths are
    held as `String`s; each `Path` call sits behind a small trusted wrapper whose result is
    named by a spec function). Two paths are the same path when their components are the
    same, so the sets of paths (selection, expanded directories, bookmarks) and the
    per-directory selection memory are lists searched with that equality rather than
    `HashSet`s and `HashMap`s hashed by text: what is proved of them rests on the equality,
    and their order is the order of insertion.
  - `entries`, `tree`, `visible`: the listing order, the tree of expanded directories, and
    which rows a search shows.
  - `config`, `labels`, `rows`, `preview`: the default configuration and openers, titles,
    icons, row labels, the status line and the preview text.
  - `state`, `edits`, `flow`, `prompts`, `commands`, `input`: the application state and
    every transition, key and mouse handling. A transition that needs the disk returns a
    `requests::Request`; the program performs it and hands the outcome to the function the
    request names.
  - `laws`: properties that span several operations, proved as lemmas.
- `tests/` — tests of the library on concrete values.
- `app/` — the program: terminal setup and drawing (crossterm, ratatui), disk work, the
  configuration file (serde_json), and the loop that runs the library's requests.

## Build

`cargo run` starts the file manager in the current directory; `?` shows the keys.
