//! Decision logic of a cargo wrapper that gives every project its own target
//! directory on fast storage.
//!
//! The library never touches the file system, the environment or a child
//! process. Callers observe those, hand the observations over as plain
//! values, and carry out the steps that the library returns.

pub mod classify;
pub mod cli;
pub mod commands;
pub mod format;
pub mod project;
pub mod scan;
pub mod symlink;
pub mod text;
