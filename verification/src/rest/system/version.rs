use vstd::prelude::*;

verus! {

/// The daemon's build identity as reported by the version endpoint.
#[derive(Clone, Debug, PartialEq)]
pub struct Version {
    pub arch: String,
    pub long_version: String,
    pub os: String,
    pub version: String,
}

} // verus!
