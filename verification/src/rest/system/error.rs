use vstd::prelude::*;

use crate::rest::system::Entry;

verus! {

/// The error lines kept by the daemon; an absent list is read as empty.
#[derive(Clone, Debug, PartialEq)]
pub struct Error {
    pub errors: Vec<Entry>,
}

} // verus!
