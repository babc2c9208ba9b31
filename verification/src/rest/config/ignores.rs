use vstd::prelude::*;

verus! {

pub type IgnorePattern = String;

/// The ignore patterns of a folder, one pattern per line.
#[derive(Clone, Debug, PartialEq)]
pub struct Ignores {
    pub lines: Vec<IgnorePattern>,
}

} // verus!
