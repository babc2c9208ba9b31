use vstd::prelude::*;

use crate::rest::system::Entry;

verus! {

/// The recent log lines kept by the daemon.
#[derive(Clone, Debug, PartialEq)]
pub struct Log {
    pub messages: Vec<Entry>,
}

} // verus!
