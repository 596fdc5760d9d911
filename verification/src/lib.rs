//! Glue logic for running a Haskell language server from a code editor.
//!
//! The crate has two independent pieces: a command resolver, which turns
//! per-project settings and the host's executable lookup into the command
//! line and environment for launching `haskell-language-server`, and a
//! symbol labeler, which renders language-server symbols as short Haskell
//! fragments with display and filter ranges for an outline or symbol
//! search UI.

pub mod command;
pub mod label;
