//! Settings for a game presence aggregator: the persisted document, its JSON
//! form, the runs of file system calls that read and write it, and the
//! validated runtime state that is derived from it.

pub mod config;
pub mod json;
pub mod state;
