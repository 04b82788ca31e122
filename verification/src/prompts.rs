//! Acting on the prompt line, pasting, opening files, and the outcome of disk work.
use vstd::prelude::*;
use crate::config::{find_opener, opener_index, opener_args, opener_argv, texts};
use crate::text::{owned, trim, trimmed, same_text, decimal, decimal_string};
use crate::paths::{without_path, remove_path, join, path_join, is_absolute, path_is_absolute, file_name, path_file_name, file_name_or_empty, name_of};
use crate::state::{AppState, Prompt, PromptKind, Clipboard, clamp_index};
use crate::requests::{Request, Effect};
use crate::flow::{failed_with, fresh_views, concat};
use crate::visible::all_indices;

verus! {

broadcast use vstd::string::group_string_axioms;

/// Where a path typed in the prompt points: itself when absolute, else inside `dir`.
pub open spec fn spec_resolve(dir: Seq<char>, input: Seq<char>) -> Seq<char> {
    if path_is_absolute(input) { input } else { path_join(dir, input) }
}

/// Where a move or copy lands: inside `dest`, under the source's file name, when `dest` is
/// a directory (and the source has a file name); else `dest` itself.
pub open spec fn spec_place(source: Seq<char>, dest: Seq<char>, dest_is_dir: bool) -> Seq<char> {
    if dest_is_dir && path_file_name(source) is Some {
        path_join(dest, path_file_name(source)->Some_0)
    } else {
        dest
    }
}

/// `b` is `a` with the status line set to `msg` and a refresh (then save) to follow.
pub open spec fn refused(a: AppState, b: AppState, r: Request, msg: Seq<char>) -> bool {
    failed_with(a, b, msg) && r == (Request::Refresh { save: true })
}

/// What acting on prompt `p` does to `a` (`execute_prompt`). The typed text is trimmed.
/// Creating and renaming need a name; moving, copying and renaming need the entry that was
/// selected when the prompt opened; deleting needs the answer `y`. A refusal is reported in
/// the status line and followed, as an action that succeeds is, by a refresh and a save. A
/// search filters the views at once and brings the side panes up to date before the refresh.
pub open spec fn post_execute_prompt(a: AppState, p: Prompt, b: AppState, r: Request) -> bool {
    let input = trimmed(p.input@);
    match p.kind {
        PromptKind::CreateFile => if input.len() == 0 {
            refused(a, b, r, "create: name required"@)
        } else {
            b == a && (r matches Request::Perform(Effect::CreateFile(path)) && path@ == spec_resolve(a.current_dir@, input))
        },
        PromptKind::CreateDir => if input.len() == 0 {
            refused(a, b, r, "mkdir: name required"@)
        } else {
            b == a && (r matches Request::Perform(Effect::CreateDir(path)) && path@ == spec_resolve(a.current_dir@, input))
        },
        PromptKind::Rename => match p.source {
            None => refused(a, b, r, "rename: no selection"@),
            Some(source) => if input.len() == 0 {
                refused(a, b, r, "rename: name required"@)
            } else {
                b == a && (r matches Request::Perform(Effect::Rename { from, to }) && from == source
                    && to@ == spec_resolve(a.current_dir@, input))
            },
        },
        PromptKind::Move => match p.source {
            None => refused(a, b, r, "move: no selection"@),
            Some(source) => if input.len() == 0 {
                refused(a, b, r, "move: destination required"@)
            } else {
                b == a && (r matches Request::CheckDest { kind, source: s, dest } && kind == PromptKind::Move
                    && s == source && dest@ == spec_resolve(a.current_dir@, input))
            },
        },
        PromptKind::Copy => match p.source {
            None => refused(a, b, r, "copy: no selection"@),
            Some(source) => if input.len() == 0 {
                refused(a, b, r, "copy: destination required"@)
            } else {
                b == a && (r matches Request::CheckDest { kind, source: s, dest } && kind == PromptKind::Copy
                    && s == source && dest@ == spec_resolve(a.current_dir@, input))
            },
        },
        PromptKind::Delete => match p.source {
            None => refused(a, b, r, "delete: no selection"@),
            Some(source) => if input != "y"@ {
                refused(a, b, r, "delete cancelled"@)
            } else {
                b == a && r == Request::Perform(Effect::Delete(source))
            },
        },
        PromptKind::DeleteSelection => if input != "y"@ {
            refused(a, b, r, "delete cancelled"@)
        } else if a.selected_items.len() == 0 {
            refused(a, b, r, "no selection to delete"@)
        } else {
            b == a && r == Request::Perform(Effect::DeleteSelected(a.selected_items@[0]))
        },
        PromptKind::Search => {
            &&& b == (AppState {
                search_query: b.search_query,
                status: b.status,
                visible_entries: b.visible_entries,
                visible_tree: b.visible_tree,
                selection: b.selection,
                ..a
            })
            &&& b.search_query@ == input
            &&& b.status@ == if input.len() == 0 { "search cleared"@ } else { "search: "@ + input }
            &&& fresh_views(b)
            &&& b.selection == clamp_index(a.selection as int, b.view_len() as int)
            &&& r == Request::SyncThenRefresh
        },
    }
}

/// The status shown once an effect has been carried out.
pub open spec fn done_message(prefix: Seq<char>, path: Seq<char>) -> Seq<char> {
    prefix + path
}

/// What the outcome of `effect` does to `a` (`effect_done`): a failure is reported in the
/// status line and ends the action; a success is reported, or leads on to the next item
/// to delete or paste, or to the refresh (and save) that follows a change on disk.
pub open spec fn post_effect_done(a: AppState, effect: Effect, result: Result<(), String>, b: AppState, r: Request) -> bool {
    match result {
        Err(e) => failed_with(a, b, e@) && r is Idle,
        Ok(_) => match effect {
            Effect::CreateFile(path) => refused(a, b, r, done_message("created file "@, path@)),
            Effect::CreateDir(path) => refused(a, b, r, done_message("created dir "@, path@)),
            Effect::Rename { from, to } => refused(a, b, r, done_message("renamed to "@, to@)),
            Effect::Move { from, to } => refused(a, b, r, done_message("moved to "@, to@)),
            Effect::Copy { from, to } => refused(a, b, r, done_message("copied to "@, to@)),
            Effect::Delete(path) => {
                &&& b == (AppState { selected_items: b.selected_items, status: b.status, ..a })
                &&& b.selected_items@ == without_path(a.selected_items@, path@)
                &&& b.status@ == done_message("deleted "@, path@)
                &&& r == (Request::Refresh { save: true })
            },
            Effect::DeleteSelected(path) => {
                let rest = without_path(a.selected_items@, path@);
                if rest.len() > 0 {
                    &&& b == (AppState { selected_items: b.selected_items, ..a })
                    &&& b.selected_items@ == rest
                    &&& r == Request::Perform(Effect::DeleteSelected(rest[0]))
                } else {
                    &&& b == (AppState { selected_items: b.selected_items, status: b.status, ..a })
                    &&& b.selected_items@ == rest
                    &&& b.status@ == "deleted selection"@
                    &&& r == (Request::Refresh { save: true })
                }
            },
            Effect::PasteMove { index, from, to } => post_paste_step(a, next_item(a, index), b, r),
            Effect::PasteCopy { index, from, to } => post_paste_step(a, next_item(a, index), b, r),
            Effect::Open { name, command, args } => failed_with(a, b, "opened with "@ + name@) && r is Idle,
        },
    }
}

/// The clipboard item after item `index` (or the end, for a position past it).
pub open spec fn next_item(a: AppState, index: usize) -> int {
    if index < a.clipboard.items.len() { index + 1 } else { a.clipboard.items.len() as int }
}

/// Pasting item `k` of the clipboard into the current directory, under its file name; or,
/// past the last item, the end of pasting: a cut clipboard is emptied, the count reported,
/// and the directory refreshed.
pub open spec fn post_paste_step(a: AppState, k: int, b: AppState, r: Request) -> bool {
    let items = a.clipboard.items@;
    if 0 <= k < items.len() {
        let to_path = path_join(a.current_dir@, name_of(items[k]@));
        &&& b == a
        &&& if a.clipboard.cut {
            (r matches Request::Perform(Effect::PasteMove { index, from, to }) && index == k && from == items[k] && to@ == to_path)
        } else {
            (r matches Request::Perform(Effect::PasteCopy { index, from, to }) && index == k && from == items[k] && to@ == to_path)
        }
    } else {
        &&& b == (AppState { clipboard: b.clipboard, status: b.status, ..a })
        &&& if a.clipboard.cut {
            b.clipboard.items@.len() == 0 && !b.clipboard.cut
        } else {
            b.clipboard == a.clipboard
        }
        &&& b.status@ == "pasted "@ + decimal(items.len())
        &&& r == (Request::Refresh { save: false })
    }
}

/// `confirm_prompt`: the open prompt closed and acted on.
pub open spec fn post_confirm_prompt(a: AppState, b: AppState, r: Request) -> bool {
    &&& a.prompt is None ==> b == a && r is Idle
    &&& a.prompt matches Some(p) ==> post_execute_prompt(
        AppState { prompt: None, ..a },
        p,
        b,
        r
    )
}

/// `paste_selection`: the clipboard pasted, item by item.
pub open spec fn post_paste_selection(a: AppState, b: AppState, r: Request) -> bool {
    &&& a.clipboard.items.len() == 0 ==> failed_with(a, b, "clipboard empty"@)
        && r is Idle
    &&& a.clipboard.items.len() > 0 ==> post_paste_step(a, 0, b, r)
}

/// `open_selected`: the selected file opened with its opener.
pub open spec fn post_open_selected(a: AppState, b: AppState, r: Request) -> bool {
    &&& a.spec_selected() is None ==> failed_with(a, b, "no selection to open"@)
        && r is Idle
    &&& a.spec_selected() matches Some((_, true)) ==> failed_with(
        a,
        b,
        "cannot open directory"@
    ) && r is Idle
    &&& a.spec_selected() matches Some((p, false)) ==> match opener_index(
        a.config.openers@,
        p@
    ) {
        None => failed_with(a, b, "no opener configured"@) && r is Idle,
        Some(i) => b == a && (r matches Request::Perform(
            Effect::Open { name, command, args },
        ) && name == a.config.openers@[i].name && command == a.config.openers@[i].command
            && texts(args@) == opener_argv(a.config.openers@[i].args@, p@))
    }
}

/// `clear_search`: a non-empty search cleared.
pub open spec fn post_clear_search(a: AppState, b: AppState, r: Request) -> bool {
    &&& a.search_query@.len() == 0 ==> b == a && r is Idle
    &&& a.search_query@.len() > 0 ==> {
        &&& b == (AppState {
            search_query: b.search_query,
            status: b.status,
            visible_entries: b.visible_entries,
            visible_tree: b.visible_tree,
            selection: b.selection,
            ..a
        })
        &&& b.search_query@.len() == 0
        &&& b.visible_entries@ == all_indices(a.entries@.len())
        &&& b.visible_tree@ == all_indices(a.tree_entries@.len())
        &&& b.selection == clamp_index(a.selection as int, b.view_len() as int)
        &&& b.status@ == "search cleared"@
        &&& r == (Request::Sync { columns: true, save: false })
    }
}

impl AppState {
    /// Where a path typed in the prompt points (see `spec_resolve`).
    pub fn resolve_path(&self, input: &str) -> (r: String)
        ensures
            r@ == spec_resolve(self.current_dir@, input@),
    {
        if is_absolute(input) {
            owned(input)
        } else {
            join(self.current_dir.as_str(), input)
        }
    }

    /// Acts on the open prompt, closing it; nothing happens when none is open.
    pub fn confirm_prompt(&mut self) -> (r: Request)
        ensures
            post_confirm_prompt(*old(self), *final(self), r),
    {
        match self.prompt.take() {
            None => Request::Idle,
            Some(p) => self.execute_prompt(p),
        }
    }

    /// Acts on a prompt (see `post_execute_prompt`).
    pub fn execute_prompt(&mut self, prompt: Prompt) -> (r: Request)
        ensures
            post_execute_prompt(*old(self), prompt, *final(self), r),
    {
        proof {
            reveal_strlit("y");
            reveal_strlit("search: ");
        }
        let input = trim(prompt.input.as_str());
        let empty = input.as_str().is_empty();
        match prompt.kind {
            PromptKind::CreateFile => {
                if empty {
                    self.status = owned("create: name required");
                    return Request::Refresh { save: true };
                }
                Request::Perform(Effect::CreateFile(self.resolve_path(input.as_str())))
            },
            PromptKind::CreateDir => {
                if empty {
                    self.status = owned("mkdir: name required");
                    return Request::Refresh { save: true };
                }
                Request::Perform(Effect::CreateDir(self.resolve_path(input.as_str())))
            },
            PromptKind::Rename => {
                let Some(source) = prompt.source else {
                    self.status = owned("rename: no selection");
                    return Request::Refresh { save: true };
                };
                if empty {
                    self.status = owned("rename: name required");
                    return Request::Refresh { save: true };
                }
                let dest = self.resolve_path(input.as_str());
                Request::Perform(Effect::Rename { from: source, to: dest })
            },
            PromptKind::Move => {
                let Some(source) = prompt.source else {
                    self.status = owned("move: no selection");
                    return Request::Refresh { save: true };
                };
                if empty {
                    self.status = owned("move: destination required");
                    return Request::Refresh { save: true };
                }
                let dest = self.resolve_path(input.as_str());
                Request::CheckDest { kind: PromptKind::Move, source: source, dest: dest }
            },
            PromptKind::Copy => {
                let Some(source) = prompt.source else {
                    self.status = owned("copy: no selection");
                    return Request::Refresh { save: true };
                };
                if empty {
                    self.status = owned("copy: destination required");
                    return Request::Refresh { save: true };
                }
                let dest = self.resolve_path(input.as_str());
                Request::CheckDest { kind: PromptKind::Copy, source: source, dest: dest }
            },
            PromptKind::Delete => {
                let Some(source) = prompt.source else {
                    self.status = owned("delete: no selection");
                    return Request::Refresh { save: true };
                };
                if !same_text(input.as_str(), "y") {
                    self.status = owned("delete cancelled");
                    return Request::Refresh { save: true };
                }
                Request::Perform(Effect::Delete(source))
            },
            PromptKind::DeleteSelection => {
                if !same_text(input.as_str(), "y") {
                    self.status = owned("delete cancelled");
                    return Request::Refresh { save: true };
                }
                if self.selected_items.len() == 0 {
                    self.status = owned("no selection to delete");
                    return Request::Refresh { save: true };
                }
                Request::Perform(Effect::DeleteSelected(self.selected_items[0].clone()))
            },
            PromptKind::Search => {
                self.status = if empty {
                    owned("search cleared")
                } else {
                    concat("search: ", input.as_str())
                };
                self.search_query = input;
                self.rebuild_visible();
                self.coerce_selection();
                Request::SyncThenRefresh
            },
        }
    }

    /// Moves or copies `source` to `dest`, now that it is known whether `dest` is a
    /// directory (see `spec_place`); a `Move` prompt moves, any other copies.
    pub fn place_checked(&self, kind: PromptKind, source: String, dest: String, dest_is_dir: bool) -> (r: Request)
        ensures
            kind == PromptKind::Move ==> (r matches Request::Perform(Effect::Move { from, to })
                && from == source && to@ == spec_place(source@, dest@, dest_is_dir)),
            kind != PromptKind::Move ==> (r matches Request::Perform(Effect::Copy { from, to })
                && from == source && to@ == spec_place(source@, dest@, dest_is_dir)),
    {
        let mut to = dest;
        if dest_is_dir {
            if let Some(name) = file_name(source.as_str()) {
                to = join(to.as_str(), name.as_str());
            }
        }
        if kind == PromptKind::Move {
            Request::Perform(Effect::Move { from: source, to: to })
        } else {
            Request::Perform(Effect::Copy { from: source, to: to })
        }
    }

    /// Pastes the clipboard into the current directory, one item after the other; reports
    /// an empty clipboard.
    pub fn paste_selection(&mut self) -> (r: Request)
        ensures
            post_paste_selection(*old(self), *final(self), r),
    {
        if self.clipboard.items.len() == 0 {
            self.status = owned("clipboard empty");
            return Request::Idle;
        }
        self.paste_step(0)
    }

    /// The work for clipboard item `k` (see `post_paste_step`).
    pub fn paste_step(&mut self, k: usize) -> (r: Request)
        ensures
            post_paste_step(*old(self), k as int, *final(self), r),
    {
        let n = self.clipboard.items.len();
        if k < n {
            let from = self.clipboard.items[k].clone();
            let name = file_name_or_empty(from.as_str());
            let to = join(self.current_dir.as_str(), name.as_str());
            if self.clipboard.cut {
                return Request::Perform(Effect::PasteMove { index: k, from: from, to: to });
            } else {
                return Request::Perform(Effect::PasteCopy { index: k, from: from, to: to });
            }
        }
        if self.clipboard.cut {
            self.clipboard = Clipboard::new();
        }
        let count = decimal_string(n as u64);
        self.status = concat("pasted ", count.as_str());
        Request::Refresh { save: false }
    }

    /// Takes back the outcome of an effect (see `post_effect_done`).
    pub fn effect_done(&mut self, effect: Effect, result: Result<(), String>) -> (r: Request)
        ensures
            post_effect_done(*old(self), effect, result, *final(self), r),
    {
        if let Err(e) = result {
            self.status = e;
            return Request::Idle;
        }
        match effect {
            Effect::CreateFile(path) => {
                self.status = concat("created file ", path.as_str());
                Request::Refresh { save: true }
            },
            Effect::CreateDir(path) => {
                self.status = concat("created dir ", path.as_str());
                Request::Refresh { save: true }
            },
            Effect::Rename { from, to } => {
                self.status = concat("renamed to ", to.as_str());
                Request::Refresh { save: true }
            },
            Effect::Move { from, to } => {
                self.status = concat("moved to ", to.as_str());
                Request::Refresh { save: true }
            },
            Effect::Copy { from, to } => {
                self.status = concat("copied to ", to.as_str());
                Request::Refresh { save: true }
            },
            Effect::Delete(path) => {
                remove_path(&mut self.selected_items, path.as_str());
                self.status = concat("deleted ", path.as_str());
                Request::Refresh { save: true }
            },
            Effect::DeleteSelected(path) => {
                remove_path(&mut self.selected_items, path.as_str());
                if self.selected_items.len() > 0 {
                    Request::Perform(Effect::DeleteSelected(self.selected_items[0].clone()))
                } else {
                    self.status = owned("deleted selection");
                    Request::Refresh { save: true }
                }
            },
            Effect::PasteMove { index, from, to } => {
                let next = if index < self.clipboard.items.len() {
                    index + 1
                } else {
                    self.clipboard.items.len()
                };
                self.paste_step(next)
            },
            Effect::PasteCopy { index, from, to } => {
                let next = if index < self.clipboard.items.len() {
                    index + 1
                } else {
                    self.clipboard.items.len()
                };
                self.paste_step(next)
            },
            Effect::Open { name, command, args } => {
                self.status = concat("opened with ", name.as_str());
                Request::Idle
            },
        }
    }

    /// Opens the selected file with the opener configured for its extension (see
    /// `opener_argv` for its arguments); reports a missing selection, a directory, or a
    /// file no opener handles.
    pub fn open_selected(&mut self) -> (r: Request)
        ensures
            post_open_selected(*old(self), *final(self), r),
    {
        let Some((path, is_dir)) = self.selected_path() else {
            self.status = owned("no selection to open");
            return Request::Idle;
        };
        if is_dir {
            self.status = owned("cannot open directory");
            return Request::Idle;
        }
        let Some(opener) = find_opener(&self.config.openers, path.as_str()) else {
            self.status = owned("no opener configured");
            return Request::Idle;
        };
        let args = opener_args(&opener.args, path.as_str());
        Request::Perform(Effect::Open { name: opener.name, command: opener.command, args: args })
    }

    /// Clears a non-empty search: all rows shown again, the selection kept in range, the side
    /// panes brought up to date, and the status line says so.
    pub fn clear_search(&mut self) -> (r: Request)
        ensures
            post_clear_search(*old(self), *final(self), r),
    {
        if self.search_query.as_str().is_empty() {
            return Request::Idle;
        }
        self.search_query = String::new();
        self.rebuild_visible();
        self.coerce_selection();
        self.status = owned("search cleared");
        Request::Sync { columns: true, save: false }
    }
}

} // verus!
