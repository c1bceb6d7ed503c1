//! Keeps a local directory in sync with a GitHub repository.
//!
//! - `config`: the stored settings and how setup merges new entries into them.
//! - `store`: where the settings file lives, and what loading and saving do to the files.
//! - `clock`: local timestamps and their text.
//! - `sync`: the steps of one synchronization run, driven by the outcomes of git commands.

pub mod config;
pub mod store;
pub mod clock;
pub mod sync;
