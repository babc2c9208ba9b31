use vstd::prelude::*;

pub mod config;
pub mod events;
pub mod system;

verus! {

/// Per-file transfer counters reported with download progress.
#[derive(Clone, Debug, PartialEq)]
pub struct File {
    pub total: u64,
    pub pulling: u64,
    pub copied_from_origin: u64,
    pub reused: u64,
    pub copied_from_elsewhere: u64,
    pub pulled: u64,
    pub bytes_total: u64,
    pub bytes_done: u64,
}

} // verus!
