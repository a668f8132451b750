//! A verified batch retriever: given a target directory and an ordered list
//! of URIs, walk the list one fetch at a time, collect a `(uri, reason)`
//! record for every fetch that fails, and report success only when nothing
//! failed. The network and filesystem work themselves happen outside this
//! crate; the library holds the decisions: when the target path is
//! acceptable, which URI is due next, how failures accumulate, and what the
//! final outcome is.

pub mod fetch;
pub mod lines;
pub mod names;
pub mod uris;
