use vstd::prelude::*;

pub mod connections;
pub mod debug;
pub mod discovery;
pub mod error;
pub mod log;
pub mod ping;
pub mod upgrade;
pub mod version;

verus! {

/// A timestamped log or error line.
#[derive(Clone, Debug, PartialEq)]
pub struct Entry {
    pub when: String,
    pub message: String,
}

} // verus!
