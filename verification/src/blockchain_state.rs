//! The blockchain state of a node: an archival node keeps an archival state
//! beside the light state of the latest block; a light node keeps only the
//! light state.
//!
//! The state types are parameters: `A` the archival state, `L` the light
//! state.
use vstd::prelude::*;

verus! {

/// The blockchain state of an archival node: its archival state and its
/// light state.
#[derive(Debug)]
pub struct BlockchainArchivalState<A, L> {
    /// The archival state, whose locks are taken before those of the light
    /// state.
    pub archival_state: A,
    /// The light state.
    pub light_state: L,
}

/// The blockchain state of a node, archival or light.
#[derive(Debug)]
pub enum BlockchainState<A, L> {
    Archival(BlockchainArchivalState<A, L>),
    Light(L),
}

/// The light state of a blockchain state, whichever kind it is.
pub open spec fn light_of<A, L>(s: BlockchainState<A, L>) -> L {
    match s {
        BlockchainState::Archival(bac) => bac.light_state,
        BlockchainState::Light(l) => l,
    }
}

impl<A, L> BlockchainState<A, L> {
    /// Whether the node is archival.
    pub fn is_archival_node(&self) -> (r: bool)
        ensures
            r == (*self is Archival),
    {
        match self {
            BlockchainState::Archival(_) => true,
            BlockchainState::Light(_) => false,
        }
    }

    /// The archival state, which only an archival node has.
    pub fn archival_state(&self) -> (r: &A)
        requires
            *self is Archival,
        ensures
            *r == self->Archival_0.archival_state,
    {
        match self {
            BlockchainState::Archival(bac) => &bac.archival_state,
            BlockchainState::Light(_) => vstd::pervasive::unreached(),
        }
    }

    /// The archival state, to be changed; only an archival node has one.
    pub fn archival_state_mut(&mut self) -> (r: &mut A)
        requires
            *old(self) is Archival,
        ensures
            *r == old(self)->Archival_0.archival_state,
            *final(self) == BlockchainState::<A, L>::Archival(
                BlockchainArchivalState {
                    archival_state: *final(r),
                    light_state: old(self)->Archival_0.light_state,
                },
            ),
    {
        match self {
            BlockchainState::Archival(bac) => &mut bac.archival_state,
            BlockchainState::Light(_) => vstd::pervasive::unreached(),
        }
    }

    /// The light state.
    pub fn light_state(&self) -> (r: &L)
        ensures
            *r == light_of(*self),
    {
        match self {
            BlockchainState::Archival(bac) => &bac.light_state,
            BlockchainState::Light(light_state) => light_state,
        }
    }

    /// The light state, to be changed.
    pub fn light_state_mut(&mut self) -> (r: &mut L)
        ensures
            *r == light_of(*old(self)),
            *final(self) == match *old(self) {
                BlockchainState::Archival(bac) => BlockchainState::<A, L>::Archival(
                    BlockchainArchivalState { archival_state: bac.archival_state, light_state: *final(r) },
                ),
                BlockchainState::Light(_) => BlockchainState::<A, L>::Light(*final(r)),
            },
    {
        match self {
            BlockchainState::Archival(bac) => &mut bac.light_state,
            BlockchainState::Light(light_state) => light_state,
        }
    }
}

} // verus!
