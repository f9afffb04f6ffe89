//! Verified core of a command-line client for the Zenkit project-management
//! service: the paged fetch of a list's entries, the per-list backup
//! sequence, the run-level manifest, and the small argument parsers.

pub mod paging;
pub mod artifacts;
pub mod backup;
pub mod run;
pub mod args;
pub mod commands;
