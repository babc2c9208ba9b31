use vstd::prelude::*;

verus! {

/// What the upgrade endpoint reports about available versions.
#[derive(Clone, Debug, PartialEq)]
pub struct UpgradeInfo {
    pub latest: String,
    pub major_newer: bool,
    pub newer: bool,
    pub running: String,
}

} // verus!
