//! Chatak: the decision logic of a terminal file manager, verified with Verus.
pub mod labels;
pub mod text;
pub mod paths;
pub mod entries;
pub mod tree;
pub mod config;
pub mod state;
pub mod requests;
pub mod edits;
pub mod visible;
pub mod flow;
pub mod prompts;
pub mod commands;
pub mod input;
pub mod preview;
pub mod rows;
pub mod laws;
pub mod behaviour;
