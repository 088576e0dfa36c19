//! Data the RPC server hands to its clients.
//!
//! The header, amount and height types are parameters: `H` a block header,
//! `A` an amount, `B` a block height.
use vstd::prelude::*;

verus! {

/// The overview a dashboard client shows.
#[derive(Debug, Clone)]
pub struct DashBoardOverviewDataFromClient<H, A, B> {
    pub tip_header: H,
    pub syncing: bool,
    pub synced_balance: A,
    pub mempool_size: usize,
    pub mempool_tx_count: usize,
    /// `None` when the peer count could not be had
    pub peer_count: Option<usize>,
    /// `None` when the mining status could not be had
    pub is_mining: Option<bool>,
    /// confirmations since the last change of the wallet's balance; `None`
    /// when the balance never changed
    pub confirmations: Option<B>,
}

} // verus!
