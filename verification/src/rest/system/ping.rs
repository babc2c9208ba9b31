use vstd::prelude::*;

verus! {

/// The only value the ping endpoint answers with.
#[derive(Copy, Clone, Debug, PartialEq, Eq, Structural)]
pub enum Pong {
    Pong,
}

/// The ping endpoint's reply.
#[derive(Copy, Clone, Debug, PartialEq, Eq, Structural)]
pub struct Ping {
    pub ping: Pong,
}

} // verus!
