//! The networks a node can take part in.
use vstd::prelude::*;

verus! {

/// A Neptune network.
#[derive(Debug, Clone, Copy, PartialEq, Eq, Structural, Hash)]
pub enum Network {
    Alpha,
    Main,
    Testnet,
    RegTest,
}

impl Default for Network {
    fn default() -> (r: Self)
        ensures
            r == Network::Main,
    {
        Network::Main
    }
}

impl Network {
    /// Whether proofs on this network are mocked, which is so on the
    /// regression-test network only.
    pub fn use_mock_proof(&self) -> (r: bool)
        ensures
            r == (*self == Network::RegTest),
    {
        match self {
            Network::RegTest => true,
            _ => false,
        }
    }
}

} // verus!
