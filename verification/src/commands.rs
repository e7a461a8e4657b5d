//! The two commands that look after the cache: `size` and `purge`.

pub mod purge;
pub mod size;
