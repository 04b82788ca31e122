//! What the file manager asks of the program around it: the disk and process work that the
//! decisions lead to, and which call takes the outcome back.
use vstd::prelude::*;
use crate::state::PromptKind;

verus! {

/// Which step waits on a freshly read tree.
#[derive(Debug, Clone, Copy, PartialEq, Eq, Structural)]
pub enum TreeWork {
    /// `set_view_mode` switched to the tree view.
    ViewMode,
    /// `toggle_expand` opened or closed a directory.
    Expand,
}

/// A change to the disk, or a program to start. Once carried out, its outcome goes to
/// `AppState::effect_done`.
#[derive(Debug)]
pub enum Effect {
    /// Create an empty file (and its missing parent directories).
    CreateFile(String),
    /// Create a directory (and its missing parents).
    CreateDir(String),
    /// Rename `from` to `to`.
    Rename { from: String, to: String },
    /// Move `from` to `to` (a rename).
    Move { from: String, to: String },
    /// Copy `from` to `to`, a directory with all it holds.
    Copy { from: String, to: String },
    /// Delete a file, or a directory with all it holds (the selected entry).
    Delete(String),
    /// Delete the first of the selected paths.
    DeleteSelected(String),
    /// Move clipboard item `index` from `from` to `to`.
    PasteMove { index: usize, from: String, to: String },
    /// Copy clipboard item `index` from `from` to `to`.
    PasteCopy { index: usize, from: String, to: String },
    /// Start `command` with `args`, for the opener called `name`.
    Open { name: String, command: String, args: Vec<String> },
}

/// The work that remains after a decision.
#[derive(Debug)]
pub enum Request {
    /// Nothing: the action is done.
    Idle,
    /// Leave the program.
    Quit,
    /// Bring the side panes up to date: where `columns`, the columns pane
    /// (`columns_request`, then `update_columns_preview`); always the preview
    /// (`preview_request`, then `update_preview`); then, where `save`, save
    /// `config_to_save()` and report a failure in the status line.
    Sync { columns: bool, save: bool },
    /// Bring the side panes up to date as `Sync { columns: true, save: false }` does, then
    /// read the listings again as `Refresh { save: true }` does.
    SyncThenRefresh,
    /// Save `config_to_save()`; report a failure in the status line.
    Save,
    /// Find out whether this bookmarked path is a directory; then `open_bookmark_checked`.
    CheckBookmark(String),
    /// List this directory; then `set_current_dir`.
    ChangeDir(String),
    /// Read the listings of `tree_dirs()`; then `finish_tree` with this work.
    ReadTree(TreeWork),
    /// Read the listings of `tree_dirs()`; then `refresh_entries`, passing `save`.
    Refresh { save: bool },
    /// Find out whether `dest` is a directory; then `place_checked`.
    CheckDest { kind: PromptKind, source: String, dest: String },
    /// Carry out the effect; then `effect_done` with its outcome.
    Perform(Effect),
}

} // verus!
