use vstd::prelude::*;

use std::collections::HashMap;

verus! {

/// The addresses under which one device was discovered.
#[derive(Clone, Debug, PartialEq)]
pub struct Addresses {
    pub addresses: Vec<String>,
}

/// The discovery cache: per device identifier, its known addresses.
pub type Discovery = HashMap<String, Addresses>;

} // verus!
