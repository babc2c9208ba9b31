use vstd::prelude::*;

verus! {

/// Whether the daemon must restart for the current configuration to take
/// effect.
#[derive(Copy, Clone, Debug, PartialEq, Eq, Structural)]
pub struct RestartRequired {
    pub requires_restart: bool,
}

} // verus!
