//! Mining states, the status data that each state carries, and a state
//! machine that moves between them in response to mining events.
//!
//! Timestamps are nanoseconds since the UNIX epoch, as read by
//! [`crate::clock::now_nanos`].
use vstd::prelude::*;

use crate::clock::{now_nanos, human_duration_secs, human_duration_text, elapsed, elapsed_between};
use crate::seq_util::{seq_unique, unique_bytes, circular_successor_pairs, lemma_seq_unique, lemma_seq_unique_map, lemma_seq_unique_push};
use crate::text::{push_str, join_strs, seq_join, decimal, signed_decimal, decimal_string, signed_decimal_string};

verus! {

/// An amount of the native currency, counted in its smallest unit (nau).
#[derive(Debug, Clone, Copy, PartialEq, Eq, Structural)]
pub struct NativeCurrencyAmount(pub i128);

impl NativeCurrencyAmount {
    /// The zero amount.
    pub fn zero() -> (r: Self)
        ensures
            r.0 == 0,
    {
        NativeCurrencyAmount(0)
    }
}

/// The part of a block's transaction kernel that mining reads.
#[derive(Debug, Clone, Copy)]
pub struct TransactionKernel {
    pub num_inputs: usize,
    pub num_outputs: usize,
    pub coinbase: Option<NativeCurrencyAmount>,
    pub fee: NativeCurrencyAmount,
}

/// A block, as far as mining reads it.
#[derive(Debug, Clone, Copy)]
pub struct Block {
    pub height: u64,
    pub kernel: TransactionKernel,
}

/// A block proposal handed to the guesser.
pub type ProposedBlock = Box<Block>;

/// The block a guesser works on.
#[derive(Debug)]
pub struct GuessingWorkInfo(pub Box<Block>);

impl GuessingWorkInfo {
    pub fn new(block: Box<Block>) -> (r: Self)
        ensures
            *r.0 == *block,
    {
        Self(block)
    }

    /// The block worked on.
    pub fn block(&self) -> (r: &Block)
        ensures
            *r == *self.0,
    {
        &self.0
    }

    /// Number of transaction inputs of the block.
    pub fn num_inputs(&self) -> (r: usize)
        ensures
            r == self.0.kernel.num_inputs,
    {
        self.0.kernel.num_inputs
    }

    /// Number of transaction outputs of the block.
    pub fn num_outputs(&self) -> (r: usize)
        ensures
            r == self.0.kernel.num_outputs,
    {
        self.0.kernel.num_outputs
    }

    /// The coinbase amount of the block, zero when it has none.
    pub fn total_coinbase(&self) -> (r: NativeCurrencyAmount)
        ensures
            r == coinbase_or_zero(self.0.kernel),
    {
        match self.0.kernel.coinbase {
            Some(c) => c,
            None => NativeCurrencyAmount::zero(),
        }
    }

    /// The fee that the guesser collects.
    pub fn total_guesser_fee(&self) -> (r: NativeCurrencyAmount)
        ensures
            r == self.0.kernel.fee,
    {
        self.0.kernel.fee
    }
}

impl Clone for GuessingWorkInfo {
    fn clone(&self) -> (r: Self)
        ensures
            *r.0 == *self.0,
    {
        GuessingWorkInfo(Box::new(*self.0))
    }
}

/// The coinbase of a kernel, or zero when it has none.
pub open spec fn coinbase_or_zero(k: TransactionKernel) -> NativeCurrencyAmount {
    match k.coinbase {
        Some(c) => c,
        None => NativeCurrencyAmount(0),
    }
}

/// Counts and amounts of a block, as reported to RPC clients.
#[derive(Debug, Clone, Copy)]
pub struct BlockSummary {
    pub num_inputs: usize,
    pub num_outputs: usize,
    pub total_coinbase: NativeCurrencyAmount,
    pub total_guesser_fee: NativeCurrencyAmount,
}

/// The summary of a block.
pub open spec fn summary_of(b: Block) -> BlockSummary {
    BlockSummary {
        num_inputs: b.kernel.num_inputs,
        num_outputs: b.kernel.num_outputs,
        total_coinbase: coinbase_or_zero(b.kernel),
        total_guesser_fee: b.kernel.fee,
    }
}

impl BlockSummary {
    /// Summarises a block.
    pub fn from_block(b: &Block) -> (r: Self)
        ensures
            r == summary_of(*b),
    {
        BlockSummary {
            num_inputs: b.kernel.num_inputs,
            num_outputs: b.kernel.num_outputs,
            total_coinbase: match b.kernel.coinbase {
                Some(c) => c,
                None => NativeCurrencyAmount::zero(),
            },
            total_guesser_fee: b.kernel.fee,
        }
    }

    /// Summarises the block of a guesser's work.
    pub fn from_work_info(w: &GuessingWorkInfo) -> (r: Self)
        ensures
            r == summary_of(*w.0),
    {
        BlockSummary {
            num_inputs: w.num_inputs(),
            num_outputs: w.num_outputs(),
            total_coinbase: w.total_coinbase(),
            total_guesser_fee: w.total_guesser_fee(),
        }
    }
}

/// The states of mining.
#[derive(Debug, Clone, Copy, PartialEq, Eq, Structural)]
pub enum MiningState {
    // ---- happy path ----
    Init,
    AwaitBlockProposal,
    Composing,
    AwaitBlock,
    Guessing,
    NewTipBlock,
    // ---- end happy path ----
    ComposeError,
    Paused,
    UnPaused,
    Disabled,
    Shutdown,
}

/// The number of each state: its position in the declaration, from 0.
pub open spec fn state_number(s: MiningState) -> u8 {
    match s {
        MiningState::Init => 0,
        MiningState::AwaitBlockProposal => 1,
        MiningState::Composing => 2,
        MiningState::AwaitBlock => 3,
        MiningState::Guessing => 4,
        MiningState::NewTipBlock => 5,
        MiningState::ComposeError => 6,
        MiningState::Paused => 7,
        MiningState::UnPaused => 8,
        MiningState::Disabled => 9,
        MiningState::Shutdown => 10,
    }
}

/// The human-readable name of a state.
pub open spec fn state_name(s: MiningState) -> Seq<char> {
    match s {
        MiningState::Disabled => "disabled"@,
        MiningState::Init => "initializing"@,
        MiningState::Paused => "paused"@,
        MiningState::UnPaused => "unpaused"@,
        MiningState::AwaitBlockProposal => "await block proposal"@,
        MiningState::AwaitBlock => "await block"@,
        MiningState::Composing => "composing"@,
        MiningState::Guessing => "guessing"@,
        MiningState::NewTipBlock => "new tip block"@,
        MiningState::ComposeError => "composer error"@,
        MiningState::Shutdown => "shutdown"@,
    }
}

impl MiningState {
    /// The number of the state (its position in the declaration, from 0).
    pub fn number(&self) -> (r: u8)
        ensures
            r == state_number(*self),
    {
        match *self {
            MiningState::Init => 0,
            MiningState::AwaitBlockProposal => 1,
            MiningState::Composing => 2,
            MiningState::AwaitBlock => 3,
            MiningState::Guessing => 4,
            MiningState::NewTipBlock => 5,
            MiningState::ComposeError => 6,
            MiningState::Paused => 7,
            MiningState::UnPaused => 8,
            MiningState::Disabled => 9,
            MiningState::Shutdown => 10,
        }
    }

    /// The state with a given number.
    pub fn from_number(n: u8) -> (r: Option<MiningState>)
        ensures
            match r {
                Some(s) => state_number(s) == n,
                None => n > 10,
            },
    {
        match n {
            0 => Some(MiningState::Init),
            1 => Some(MiningState::AwaitBlockProposal),
            2 => Some(MiningState::Composing),
            3 => Some(MiningState::AwaitBlock),
            4 => Some(MiningState::Guessing),
            5 => Some(MiningState::NewTipBlock),
            6 => Some(MiningState::ComposeError),
            7 => Some(MiningState::Paused),
            8 => Some(MiningState::UnPaused),
            9 => Some(MiningState::Disabled),
            10 => Some(MiningState::Shutdown),
            _ => None,
        }
    }

    /// The human-readable name of the state.
    pub fn name(&self) -> (r: &'static str)
        ensures
            r@ == state_name(*self),
    {
        proof {
            reveal_strlit("disabled");
            reveal_strlit("initializing");
            reveal_strlit("paused");
            reveal_strlit("unpaused");
            reveal_strlit("await block proposal");
            reveal_strlit("await block");
            reveal_strlit("composing");
            reveal_strlit("guessing");
            reveal_strlit("new tip block");
            reveal_strlit("composer error");
            reveal_strlit("shutdown");
        }
        match *self {
            Self::Disabled => "disabled",
            Self::Init => "initializing",
            Self::Paused => "paused",
            Self::UnPaused => "unpaused",
            Self::AwaitBlockProposal => "await block proposal",
            Self::AwaitBlock => "await block",
            Self::Composing => "composing",
            Self::Guessing => "guessing",
            Self::NewTipBlock => "new tip block",
            Self::ComposeError => "composer error",
            Self::Shutdown => "shutdown",
        }
    }
}

/// Why mining is paused.
#[derive(Debug, Clone, Copy, PartialEq, Eq, Structural, Hash)]
pub enum MiningPausedReason {
    /// paused by rpc. (user)
    Rpc,
    /// syncing blocks
    SyncBlocks,
    /// need peer connections
    NeedConnection,
}

/// The number of a pause reason.
pub open spec fn reason_code(r: MiningPausedReason) -> u8 {
    match r {
        MiningPausedReason::Rpc => 0,
        MiningPausedReason::SyncBlocks => 1,
        MiningPausedReason::NeedConnection => 2,
    }
}

/// The pause reason with a given number; numbers above 2 give `Rpc`.
pub open spec fn reason_of_code(c: u8) -> MiningPausedReason {
    if c == 1 {
        MiningPausedReason::SyncBlocks
    } else if c == 2 {
        MiningPausedReason::NeedConnection
    } else {
        MiningPausedReason::Rpc
    }
}

/// The description of a pause reason.
pub open spec fn reason_description(r: MiningPausedReason) -> Seq<char> {
    match r {
        MiningPausedReason::Rpc => "user"@,
        MiningPausedReason::SyncBlocks => "syncing blocks"@,
        MiningPausedReason::NeedConnection => "await connections"@,
    }
}

impl MiningPausedReason {
    /// A short description of the reason.
    pub fn description(&self) -> (r: &'static str)
        ensures
            r@ == reason_description(*self),
    {
        proof {
            reveal_strlit("user");
            reveal_strlit("syncing blocks");
            reveal_strlit("await connections");
        }
        match self {
            Self::Rpc => "user",
            Self::SyncBlocks => "syncing blocks",
            Self::NeedConnection => "await connections",
        }
    }

    /// The number of the reason.
    pub fn code(&self) -> (r: u8)
        ensures
            r == reason_code(*self),
    {
        match self {
            Self::Rpc => 0,
            Self::SyncBlocks => 1,
            Self::NeedConnection => 2,
        }
    }

    /// The reason with a given number.
    pub fn from_code(c: u8) -> (r: Self)
        ensures
            r == reason_of_code(c),
    {
        if c == 1 {
            Self::SyncBlocks
        } else if c == 2 {
            Self::NeedConnection
        } else {
            Self::Rpc
        }
    }
}

/// A mining state together with the time it was entered and the data it
/// carries.
#[derive(Debug)]
pub enum MiningStateData {
    Disabled(u128),
    Init(u128),
    Paused(u128, Vec<MiningPausedReason>),
    UnPaused(u128),
    AwaitBlockProposal(u128),
    AwaitBlock(u128, ProposedBlock),
    Composing(u128),
    Guessing(u128, GuessingWorkInfo),
    NewTipBlock(u128),
    ComposeError(u128),
    Shutdown(u128),
}

/// The mathematical value of a [`MiningStateData`].
pub enum StatusView {
    Disabled(u128),
    Init(u128),
    Paused(u128, Seq<MiningPausedReason>),
    UnPaused(u128),
    AwaitBlockProposal(u128),
    AwaitBlock(u128, Block),
    Composing(u128),
    Guessing(u128, Block),
    NewTipBlock(u128),
    ComposeError(u128),
    Shutdown(u128),
}

/// The state of a status.
pub open spec fn status_state(s: StatusView) -> MiningState {
    match s {
        StatusView::Disabled(_) => MiningState::Disabled,
        StatusView::Init(_) => MiningState::Init,
        StatusView::Paused(..) => MiningState::Paused,
        StatusView::UnPaused(_) => MiningState::UnPaused,
        StatusView::AwaitBlockProposal(_) => MiningState::AwaitBlockProposal,
        StatusView::AwaitBlock(..) => MiningState::AwaitBlock,
        StatusView::Composing(_) => MiningState::Composing,
        StatusView::Guessing(..) => MiningState::Guessing,
        StatusView::NewTipBlock(_) => MiningState::NewTipBlock,
        StatusView::ComposeError(_) => MiningState::ComposeError,
        StatusView::Shutdown(_) => MiningState::Shutdown,
    }
}

/// The time a status was entered.
pub open spec fn status_since(s: StatusView) -> u128 {
    match s {
        StatusView::Disabled(t) => t,
        StatusView::Init(t) => t,
        StatusView::Paused(t, _) => t,
        StatusView::UnPaused(t) => t,
        StatusView::AwaitBlockProposal(t) => t,
        StatusView::AwaitBlock(t, _) => t,
        StatusView::Composing(t) => t,
        StatusView::Guessing(t, _) => t,
        StatusView::NewTipBlock(t) => t,
        StatusView::ComposeError(t) => t,
        StatusView::Shutdown(t) => t,
    }
}

/// The status of a given state entered at time `t`, for the states that carry
/// no data besides the time; a paused status gets the single reason `Rpc`.
pub open spec fn plain_status(s: MiningState, t: u128) -> StatusView {
    match s {
        MiningState::Disabled => StatusView::Disabled(t),
        MiningState::Init => StatusView::Init(t),
        MiningState::AwaitBlockProposal => StatusView::AwaitBlockProposal(t),
        MiningState::Composing => StatusView::Composing(t),
        MiningState::NewTipBlock => StatusView::NewTipBlock(t),
        MiningState::ComposeError => StatusView::ComposeError(t),
        MiningState::Shutdown => StatusView::Shutdown(t),
        MiningState::Paused => StatusView::Paused(t, seq![MiningPausedReason::Rpc]),
        _ => StatusView::UnPaused(t),
    }
}

impl View for MiningStateData {
    type V = StatusView;

    open spec fn view(&self) -> StatusView {
        match self {
            MiningStateData::Disabled(t) => StatusView::Disabled(*t),
            MiningStateData::Init(t) => StatusView::Init(*t),
            MiningStateData::Paused(t, r) => StatusView::Paused(*t, r@),
            MiningStateData::UnPaused(t) => StatusView::UnPaused(*t),
            MiningStateData::AwaitBlockProposal(t) => StatusView::AwaitBlockProposal(*t),
            MiningStateData::AwaitBlock(t, b) => StatusView::AwaitBlock(*t, **b),
            MiningStateData::Composing(t) => StatusView::Composing(*t),
            MiningStateData::Guessing(t, w) => StatusView::Guessing(*t, *w.0),
            MiningStateData::NewTipBlock(t) => StatusView::NewTipBlock(*t),
            MiningStateData::ComposeError(t) => StatusView::ComposeError(*t),
            MiningStateData::Shutdown(t) => StatusView::Shutdown(*t),
        }
    }
}

impl Clone for MiningStateData {
    fn clone(&self) -> (r: Self)
        ensures
            r@ == self@,
    {
        match self {
            MiningStateData::Disabled(t) => MiningStateData::Disabled(*t),
            MiningStateData::Init(t) => MiningStateData::Init(*t),
            MiningStateData::Paused(t, r) => MiningStateData::Paused(*t, r.clone()),
            MiningStateData::UnPaused(t) => MiningStateData::UnPaused(*t),
            MiningStateData::AwaitBlockProposal(t) => MiningStateData::AwaitBlockProposal(*t),
            MiningStateData::AwaitBlock(t, b) => MiningStateData::AwaitBlock(*t, Box::new(**b)),
            MiningStateData::Composing(t) => MiningStateData::Composing(*t),
            MiningStateData::Guessing(t, w) => MiningStateData::Guessing(*t, w.clone()),
            MiningStateData::NewTipBlock(t) => MiningStateData::NewTipBlock(*t),
            MiningStateData::ComposeError(t) => MiningStateData::ComposeError(*t),
            MiningStateData::Shutdown(t) => MiningStateData::Shutdown(*t),
        }
    }
}


/// Whether two blocks are equal.
pub fn same_block(a: &Block, b: &Block) -> (r: bool)
    ensures
        r == (*a == *b),
{
    let coinbase_eq = match (a.kernel.coinbase, b.kernel.coinbase) {
        (Some(x), Some(y)) => x == y,
        (None, None) => true,
        _ => false,
    };
    a.height == b.height && a.kernel.num_inputs == b.kernel.num_inputs && a.kernel.num_outputs
        == b.kernel.num_outputs && coinbase_eq && a.kernel.fee == b.kernel.fee
}

/// Whether two lists of pause reasons are equal.
pub fn same_reasons(a: &Vec<MiningPausedReason>, b: &Vec<MiningPausedReason>) -> (r: bool)
    ensures
        r == (a@ == b@),
{
    if a.len() != b.len() {
        return false;
    }
    let mut i: usize = 0;
    while i < a.len()
        invariant
            i <= a.len(),
            a.len() == b.len(),
            forall|j: int| 0 <= j < i ==> a@[j] == b@[j],
        decreases a.len() - i,
    {
        if a[i] != b[i] {
            return false;
        }
        i = i + 1;
    }
    proof {
        assert(a@ =~= b@);
    }
    true
}

impl MiningStateData {
    pub fn disabled() -> (r: Self)
        ensures
            r@ == StatusView::Disabled(status_since(r@)),
    {
        Self::Disabled(now_nanos())
    }

    pub fn init() -> (r: Self)
        ensures
            r@ == StatusView::Init(status_since(r@)),
    {
        Self::Init(now_nanos())
    }

    pub fn paused(reason: MiningPausedReason) -> (r: Self)
        ensures
            r@ == StatusView::Paused(status_since(r@), seq![reason]),
    {
        let t = now_nanos();
        let reasons = vec![reason];
        proof {
            assert(reasons@ =~= seq![reason]);
        }
        Self::Paused(t, reasons)
    }

    pub fn unpaused() -> (r: Self)
        ensures
            r@ == StatusView::UnPaused(status_since(r@)),
    {
        Self::UnPaused(now_nanos())
    }

    pub fn await_block_proposal() -> (r: Self)
        ensures
            r@ == StatusView::AwaitBlockProposal(status_since(r@)),
    {
        Self::AwaitBlockProposal(now_nanos())
    }

    pub fn await_block(proposed_block: ProposedBlock) -> (r: Self)
        ensures
            r@ == StatusView::AwaitBlock(status_since(r@), *proposed_block),
    {
        Self::AwaitBlock(now_nanos(), proposed_block)
    }

    pub fn composing() -> (r: Self)
        ensures
            r@ == StatusView::Composing(status_since(r@)),
    {
        Self::Composing(now_nanos())
    }

    pub fn guessing(work_info: GuessingWorkInfo) -> (r: Self)
        ensures
            r@ == StatusView::Guessing(status_since(r@), *work_info.0),
    {
        Self::Guessing(now_nanos(), work_info)
    }

    pub fn new_tip_block() -> (r: Self)
        ensures
            r@ == StatusView::NewTipBlock(status_since(r@)),
    {
        Self::NewTipBlock(now_nanos())
    }

    pub fn compose_error() -> (r: Self)
        ensures
            r@ == StatusView::ComposeError(status_since(r@)),
    {
        Self::ComposeError(now_nanos())
    }

    pub fn shutdown() -> (r: Self)
        ensures
            r@ == StatusView::Shutdown(status_since(r@)),
    {
        Self::Shutdown(now_nanos())
    }

    /// The status of `state` entered now. There is no status for the states
    /// that carry a block (`AwaitBlock`, `Guessing`); a paused status gets the
    /// single reason `Rpc`.
    pub fn try_from_state(state: MiningState) -> (r: Option<Self>)
        ensures
            match r {
                Some(d) => state != MiningState::AwaitBlock && state != MiningState::Guessing
                    && d@ == plain_status(state, status_since(d@)),
                None => state == MiningState::AwaitBlock || state == MiningState::Guessing,
            },
    {
        match state {
            MiningState::Disabled => Some(MiningStateData::disabled()),
            MiningState::Init => Some(MiningStateData::init()),
            MiningState::AwaitBlockProposal => Some(MiningStateData::await_block_proposal()),
            MiningState::AwaitBlock => None,
            MiningState::Composing => Some(MiningStateData::composing()),
            MiningState::Guessing => None,
            MiningState::NewTipBlock => Some(MiningStateData::new_tip_block()),
            MiningState::ComposeError => Some(MiningStateData::compose_error()),
            MiningState::Shutdown => Some(MiningStateData::shutdown()),
            MiningState::Paused => Some(MiningStateData::paused(MiningPausedReason::Rpc)),
            MiningState::UnPaused => Some(MiningStateData::unpaused()),
        }
    }

    pub fn is_init(&self) -> (r: bool)
        ensures
            r == (status_state(self@) == MiningState::Init),
    {
        self.state() == MiningState::Init
    }

    pub fn is_composing(&self) -> (r: bool)
        ensures
            r == (status_state(self@) == MiningState::Composing),
    {
        self.state() == MiningState::Composing
    }

    pub fn is_guessing(&self) -> (r: bool)
        ensures
            r == (status_state(self@) == MiningState::Guessing),
    {
        self.state() == MiningState::Guessing
    }

    pub fn is_shutdown(&self) -> (r: bool)
        ensures
            r == (status_state(self@) == MiningState::Shutdown),
    {
        self.state() == MiningState::Shutdown
    }

    /// The state of this status.
    pub fn state(&self) -> (r: MiningState)
        ensures
            r == status_state(self@),
    {
        match *self {
            Self::Disabled(_) => MiningState::Disabled,
            Self::Init(_) => MiningState::Init,
            Self::Paused(..) => MiningState::Paused,
            Self::UnPaused(_) => MiningState::UnPaused,
            Self::AwaitBlockProposal(_) => MiningState::AwaitBlockProposal,
            Self::AwaitBlock(..) => MiningState::AwaitBlock,
            Self::Composing(_) => MiningState::Composing,
            Self::Guessing(..) => MiningState::Guessing,
            Self::NewTipBlock(_) => MiningState::NewTipBlock,
            Self::ComposeError(_) => MiningState::ComposeError,
            Self::Shutdown(_) => MiningState::Shutdown,
        }
    }

    /// The name of this status's state.
    pub fn name(&self) -> (r: String)
        ensures
            r@ == state_name(status_state(self@)),
    {
        self.state().name().to_owned()
    }

    /// The time this status was entered.
    pub fn since(&self) -> (r: u128)
        ensures
            r == status_since(self@),
    {
        match *self {
            Self::Disabled(t) => t,
            Self::Init(t) => t,
            Self::Paused(t, _) => t,
            Self::UnPaused(t) => t,
            Self::AwaitBlockProposal(t) => t,
            Self::AwaitBlock(t, _) => t,
            Self::Composing(t) => t,
            Self::Guessing(t, _) => t,
            Self::NewTipBlock(t) => t,
            Self::ComposeError(t) => t,
            Self::Shutdown(t) => t,
        }
    }

    /// Whether two statuses are equal: same state, time and data.
    pub fn same_as(&self, other: &Self) -> (r: bool)
        ensures
            r == (self@ == other@),
    {
        match (self, other) {
            (Self::Disabled(a), Self::Disabled(b)) => *a == *b,
            (Self::Init(a), Self::Init(b)) => *a == *b,
            (Self::Paused(a, ra), Self::Paused(b, rb)) => *a == *b && same_reasons(ra, rb),
            (Self::UnPaused(a), Self::UnPaused(b)) => *a == *b,
            (Self::AwaitBlockProposal(a), Self::AwaitBlockProposal(b)) => *a == *b,
            (Self::AwaitBlock(a, ba), Self::AwaitBlock(b, bb)) => *a == *b && same_block(ba, bb),
            (Self::Composing(a), Self::Composing(b)) => *a == *b,
            (Self::Guessing(a, wa), Self::Guessing(b, wb)) => *a == *b && same_block(&wa.0, &wb.0),
            (Self::NewTipBlock(a), Self::NewTipBlock(b)) => *a == *b,
            (Self::ComposeError(a), Self::ComposeError(b)) => *a == *b,
            (Self::Shutdown(a), Self::Shutdown(b)) => *a == *b,
            _ => false,
        }
    }
}


/// A refused state transition.
#[derive(Debug, Clone, Copy, PartialEq, Eq, Structural)]
pub struct InvalidStateTransition {
    pub old_state: MiningState,
    pub new_state: MiningState,
}

/// The configuration of a mining state machine.
#[derive(Debug, Clone, Copy)]
pub struct MiningStateMachineConfig {
    pub role_compose: bool,
    pub role_guess: bool,
    /// true: return error on invalid state transitions.
    /// false: ignore invalid state transitions, return Ok()
    pub strict_state_transitions: bool,
}

/// The mathematical value of a mining state machine: its status, its three
/// pause flags and its configuration.
pub struct MachineView {
    pub status: StatusView,
    pub paused_while_syncing: bool,
    pub paused_by_rpc: bool,
    pub paused_need_connection: bool,
    pub role_compose: bool,
    pub role_guess: bool,
    pub strict_state_transitions: bool,
}

/// The machine in the initial state, with no pause flag set.
pub open spec fn initial_machine(t: u128, role_compose: bool, role_guess: bool, strict: bool) -> MachineView {
    MachineView {
        status: StatusView::Init(t),
        paused_while_syncing: false,
        paused_by_rpc: false,
        paused_need_connection: false,
        role_compose,
        role_guess,
        strict_state_transitions: strict,
    }
}

/// How many pause flags are set.
pub open spec fn paused_count(m: MachineView) -> nat {
    (if m.paused_by_rpc { 1nat } else { 0nat }) + (if m.paused_while_syncing { 1nat } else { 0nat })
        + (if m.paused_need_connection { 1nat } else { 0nat })
}

/// Whether the machine composes or guesses.
pub open spec fn mining_enabled(m: MachineView) -> bool {
    m.role_compose || m.role_guess
}

/// The machine's state.
pub open spec fn machine_state(m: MachineView) -> MiningState {
    status_state(m.status)
}

/// The machine with another status.
pub open spec fn with_status(m: MachineView, s: StatusView) -> MachineView {
    MachineView { status: s, ..m }
}

/// The pause flag of a reason.
pub open spec fn pause_flag(m: MachineView, r: MiningPausedReason) -> bool {
    match r {
        MiningPausedReason::Rpc => m.paused_by_rpc,
        MiningPausedReason::SyncBlocks => m.paused_while_syncing,
        MiningPausedReason::NeedConnection => m.paused_need_connection,
    }
}

/// The machine with the pause flag of a reason set to `v`.
pub open spec fn with_pause_flag(m: MachineView, r: MiningPausedReason, v: bool) -> MachineView {
    match r {
        MiningPausedReason::Rpc => MachineView { paused_by_rpc: v, ..m },
        MiningPausedReason::SyncBlocks => MachineView { paused_while_syncing: v, ..m },
        MiningPausedReason::NeedConnection => MachineView { paused_need_connection: v, ..m },
    }
}

/// The status after a pause for `r` at time `t` is merged in: a paused status
/// keeps its time and gains `r` among its reasons (each reason once, in the
/// order first given); any other status is replaced by a pause for `r` alone.
pub open spec fn merged_pause(m: MachineView, r: MiningPausedReason, t: u128) -> StatusView {
    merge_pause_into(m.status, r, t)
}

/// Status `cur` with a pause for `r` at time `t` merged in (see
/// [`merged_pause`]).
pub open spec fn merge_pause_into(cur: StatusView, r: MiningPausedReason, t: u128) -> StatusView {
    match cur {
        StatusView::Paused(t0, rs) => StatusView::Paused(t0, seq_unique(rs.push(r))),
        _ => StatusView::Paused(t, seq![r]),
    }
}

/// A pause for `reason` merged into status `current`: a paused status keeps
/// its time and gains the reason (each reason once, in the order first
/// given); any other status is replaced by `new_status`, a pause for
/// `reason` alone.
pub fn merge_paused_status(current: &MiningStateData, new_status: MiningStateData, reason: MiningPausedReason) -> (r: MiningStateData)
    requires
        new_status@ == StatusView::Paused(status_since(new_status@), seq![reason]),
    ensures
        r@ == merge_pause_into(current@, reason, status_since(new_status@)),
{
    let merged = match current {
        MiningStateData::Paused(old_time, old_reasons) => {
            let mut codes: Vec<u8> = Vec::new();
            let mut i: usize = 0;
            while i < old_reasons.len()
                invariant
                    i <= old_reasons.len(),
                    codes@ == old_reasons@.take(i as int).map_values(|r: MiningPausedReason| reason_code(r)),
                decreases old_reasons.len() - i,
            {
                codes.push(old_reasons[i].code());
                proof {
                    assert(old_reasons@.take(i + 1) =~= old_reasons@.take(i as int).push(old_reasons@[i as int]));
                }
                i = i + 1;
            }
            codes.push(reason.code());
            let unique_codes = unique_bytes(codes);
            let mut reasons: Vec<MiningPausedReason> = Vec::new();
            let mut j: usize = 0;
            while j < unique_codes.len()
                invariant
                    j <= unique_codes.len(),
                    reasons@ == unique_codes@.take(j as int).map_values(|c: u8| reason_of_code(c)),
                decreases unique_codes.len() - j,
            {
                reasons.push(MiningPausedReason::from_code(unique_codes[j]));
                proof {
                    assert(unique_codes@.take(j + 1) =~= unique_codes@.take(j as int).push(unique_codes@[j as int]));
                }
                j = j + 1;
            }
            proof {
                let all = old_reasons@.push(reason);
                let f = |r: MiningPausedReason| reason_code(r);
                let g = |c: u8| reason_of_code(c);
                assert(old_reasons@.take(old_reasons@.len() as int) =~= old_reasons@);
                assert(codes@ =~= all.map_values(f));
                assert forall|x: MiningPausedReason, y: MiningPausedReason| #[trigger] f(x) == #[trigger] f(y) implies x == y by {}
                lemma_seq_unique_map(all, f);
                assert(unique_codes@.take(unique_codes@.len() as int) =~= unique_codes@);
                assert(reasons@ =~= seq_unique(all)) by {
                    let u = seq_unique(all);
                    assert(unique_codes@ == u.map_values(f));
                    assert forall|k: int| 0 <= k < u.len() implies reasons@[k] == u[k] by {
                        assert(reasons@[k] == g(unique_codes@[k]));
                    }
                }
            }
            MiningStateData::Paused(*old_time, reasons)
        },
        _ => new_status,
    };
    merged
}

/// The states that may follow a state (the mining transition table).
pub open spec fn transitions(s: MiningState) -> Seq<MiningState> {
    match s {
        MiningState::Init => seq![
            MiningState::AwaitBlockProposal,
            MiningState::NewTipBlock,
            MiningState::Paused,
            MiningState::Shutdown,
        ],
        MiningState::AwaitBlockProposal => seq![
            MiningState::Composing,
            MiningState::AwaitBlock,
            MiningState::Paused,
            MiningState::Shutdown,
            MiningState::NewTipBlock,
        ],
        MiningState::Composing => seq![
            MiningState::AwaitBlock,
            MiningState::ComposeError,
            MiningState::Paused,
            MiningState::Shutdown,
            MiningState::NewTipBlock,
        ],
        MiningState::AwaitBlock => seq![
            MiningState::Guessing,
            MiningState::Paused,
            MiningState::Shutdown,
            MiningState::NewTipBlock,
        ],
        MiningState::Guessing => seq![
            MiningState::NewTipBlock,
            MiningState::Paused,
            MiningState::Shutdown,
        ],
        MiningState::NewTipBlock => seq![
            MiningState::Init,
            MiningState::Paused,
            MiningState::Shutdown,
        ],
        MiningState::ComposeError => seq![MiningState::Shutdown],
        MiningState::Paused => seq![MiningState::UnPaused, MiningState::Shutdown],
        MiningState::UnPaused => seq![MiningState::Init, MiningState::Shutdown],
        MiningState::Disabled => seq![],
        MiningState::Shutdown => seq![],
    }
}

/// The states that may follow a state.
pub fn allowed_transitions(s: MiningState) -> (r: Vec<MiningState>)
    ensures
        r@ == transitions(s),
{
    let r = match s {
        MiningState::Init => vec![
            MiningState::AwaitBlockProposal,
            MiningState::NewTipBlock,
            MiningState::Paused,
            MiningState::Shutdown,
        ],
        MiningState::AwaitBlockProposal => vec![
            MiningState::Composing,
            MiningState::AwaitBlock,
            MiningState::Paused,
            MiningState::Shutdown,
            MiningState::NewTipBlock,
        ],
        MiningState::Composing => vec![
            MiningState::AwaitBlock,
            MiningState::ComposeError,
            MiningState::Paused,
            MiningState::Shutdown,
            MiningState::NewTipBlock,
        ],
        MiningState::AwaitBlock => vec![
            MiningState::Guessing,
            MiningState::Paused,
            MiningState::Shutdown,
            MiningState::NewTipBlock,
        ],
        MiningState::Guessing => vec![
            MiningState::NewTipBlock,
            MiningState::Paused,
            MiningState::Shutdown,
        ],
        MiningState::NewTipBlock => vec![
            MiningState::Init,
            MiningState::Paused,
            MiningState::Shutdown,
        ],
        MiningState::ComposeError => vec![MiningState::Shutdown],
        MiningState::Paused => vec![MiningState::UnPaused, MiningState::Shutdown],
        MiningState::UnPaused => vec![MiningState::Init, MiningState::Shutdown],
        MiningState::Disabled => vec![],
        MiningState::Shutdown => vec![],
    };
    proof {
        assert(r@ =~= transitions(s));
    }
    r
}

/// Whether `x` occurs in `v`.
pub fn contains_state(v: &Vec<MiningState>, x: MiningState) -> (r: bool)
    ensures
        r == v@.contains(x),
{
    let mut i: usize = 0;
    while i < v.len()
        invariant
            i <= v.len(),
            forall|j: int| 0 <= j < i ==> v@[j] != x,
        decreases v.len() - i,
    {
        if v[i] == x {
            return true;
        }
        i = i + 1;
    }
    false
}

/// Whether the machine may move to status `s`:
///   1. entering Init from Init is allowed;
///   2. a status equal to the present one is allowed;
///   3. a machine that does not mine may only be disabled;
///   4. a machine paused for more than one reason may only shut down;
///   5. otherwise the transition table decides.
pub open spec fn allowed(m: MachineView, s: StatusView) -> bool {
    let state = status_state(s);
    if state == machine_state(m) && state == MiningState::Init {
        true
    } else if s == m.status {
        true
    } else if !mining_enabled(m) {
        state == MiningState::Disabled
    } else if paused_count(m) > 1 {
        state == MiningState::Shutdown
    } else {
        transitions(machine_state(m)).contains(state)
    }
}

/// Moving to a status that is not a pause: the machine takes it when it is
/// allowed; otherwise a strict machine returns an error and any other machine
/// stays as it is.
pub open spec fn step(m: MachineView, s: StatusView) -> (MachineView, Result<(), InvalidStateTransition>) {
    if allowed(m, s) {
        (with_status(m, s), Ok(()))
    } else if m.strict_state_transitions {
        (m, Err(InvalidStateTransition { old_state: machine_state(m), new_state: status_state(s) }))
    } else {
        (m, Ok(()))
    }
}

/// Pausing for reason `r`, the clock reading `t`: the pause status is merged
/// in when allowed, and the reason's flag is set either way.
pub open spec fn pause_by(m: MachineView, r: MiningPausedReason, t: u128) -> MachineView {
    let m1 = if allowed(m, StatusView::Paused(t, seq![r])) {
        with_status(m, merged_pause(m, r, t))
    } else {
        m
    };
    with_pause_flag(m1, r, true)
}

/// Un-pausing for reason `r`, the clock reading `t1` then `t2`: the machine
/// tries to move to UnPaused, then to Init, and clears the reason's flag.
pub open spec fn unpause_by(m: MachineView, r: MiningPausedReason, t1: u128, t2: u128) -> MachineView {
    let m1 = step(m, StatusView::UnPaused(t1)).0;
    let m2 = step(m1, StatusView::Init(t2)).0;
    with_pause_flag(m2, r, false)
}

/// Pausing for each of `rs` in turn, the clock reading `ts[i]` for `rs[i]`.
pub open spec fn pause_all(m: MachineView, rs: Seq<MiningPausedReason>, ts: Seq<u128>) -> MachineView
    decreases rs.len(),
{
    if rs.len() == 0 {
        m
    } else {
        pause_by(pause_all(m, rs.drop_last(), ts), rs.last(), ts[rs.len() - 1])
    }
}

/// `pause_all` reads only the first `rs.len()` clock readings.
pub proof fn lemma_pause_all_prefix(m: MachineView, rs: Seq<MiningPausedReason>, ts1: Seq<u128>, ts2: Seq<u128>)
    requires
        forall|i: int| 0 <= i < rs.len() ==> ts1[i] == ts2[i],
    ensures
        pause_all(m, rs, ts1) == pause_all(m, rs, ts2),
    decreases rs.len(),
{
    if rs.len() > 0 {
        lemma_pause_all_prefix(m, rs.drop_last(), ts1, ts2);
    }
}

/// Moving to status `s` (see `MiningStateMachine::advance_with`): a pause
/// status pauses for each of its reasons, the clock reading `ts[i]` for the
/// i-th; any other status is a `step`.
pub open spec fn advance_with_spec(m: MachineView, s: StatusView, ts: Seq<u128>) -> (MachineView, Result<(), InvalidStateTransition>) {
    match s {
        StatusView::Paused(_, rs) => (pause_all(m, rs, ts), Ok(())),
        _ => step(m, s),
    }
}

/// The state after a state on the mining happy path, which cycles
/// Init, AwaitBlockProposal, Composing, AwaitBlock, Guessing, NewTipBlock.
pub open spec fn happy_next(s: MiningState) -> Option<MiningState> {
    match s {
        MiningState::Init => Some(MiningState::AwaitBlockProposal),
        MiningState::AwaitBlockProposal => Some(MiningState::Composing),
        MiningState::Composing => Some(MiningState::AwaitBlock),
        MiningState::AwaitBlock => Some(MiningState::Guessing),
        MiningState::Guessing => Some(MiningState::NewTipBlock),
        MiningState::NewTipBlock => Some(MiningState::Init),
        _ => None,
    }
}

/// Whether `advance` goes on advancing after reaching state `n`: a composer
/// skips AwaitBlockProposal and Guessing, a guesser skips AwaitBlock, and
/// Composing too unless it also composes.
pub open spec fn skips(m: MachineView, n: MiningState) -> bool {
    match n {
        MiningState::AwaitBlockProposal => m.role_compose,
        MiningState::Guessing => m.role_compose,
        MiningState::Composing => m.role_guess && !m.role_compose,
        MiningState::AwaitBlock => m.role_guess,
        _ => false,
    }
}

/// The inputs on which `advance` never returns: a lenient machine that is
/// paused for more than one reason cannot move, and advances again from the
/// same state when its role skips the next state.
pub open spec fn advance_loops(m: MachineView) -> bool {
    &&& !m.strict_state_transitions
    &&& paused_count(m) > 1
    &&& match happy_next(machine_state(m)) {
        Some(n) => n != MiningState::AwaitBlock && skips(m, n),
        None => false,
    }
}

/// A bound on how many more times `advance` moves from a state.
pub open spec fn advance_rank(s: MiningState) -> nat {
    match s {
        MiningState::Init => 3,
        MiningState::AwaitBlockProposal => 2,
        MiningState::Composing => 1,
        MiningState::AwaitBlock => 1,
        _ => 0,
    }
}

/// The status `advance` moves to from status `cur`, for the next state `n`,
/// the clock reading `t`.
pub open spec fn advance_target(cur: StatusView, n: MiningState, t: u128) -> StatusView {
    if n == MiningState::Guessing {
        match cur {
            StatusView::AwaitBlock(_, b) => StatusView::Guessing(t, b),
            _ => plain_status(n, t),
        }
    } else {
        plain_status(n, t)
    }
}

/// Advancing along the happy path (see `MiningStateMachine::advance`), the
/// clock reading `ts[0]`, `ts[1]`, ... for the statuses entered in turn.
pub open spec fn advance_spec(m: MachineView, ts: Seq<u128>) -> (MachineView, Result<(), InvalidStateTransition>)
    decreases advance_rank(machine_state(m)),
    when !advance_loops(m)
{
    let cur = machine_state(m);
    match happy_next(cur) {
        None => (m, Ok(())),
        Some(n) => if n == MiningState::AwaitBlock {
            (m, Err(InvalidStateTransition { old_state: cur, new_state: MiningState::AwaitBlock }))
        } else {
            let (m1, r1) = step(m, advance_target(m.status, n, ts[0]));
            if r1 is Err {
                (m1, r1)
            } else if skips(m, n) {
                advance_spec(m1, ts.drop_first())
            } else {
                (m1, Ok(()))
            }
        },
    }
}


/// Events that the mining state machine handles.
#[derive(Debug)]
pub enum MiningEvent {
    Advance,
    Init,
    PauseByRpc,
    UnPauseByRpc,
    PauseBySyncBlocks,
    UnPauseBySyncBlocks,
    PauseByNeedConnection,
    UnPauseByNeedConnection,
    NewBlockProposal(ProposedBlock),
    NewTipBlock,
    ComposeError,
    Shutdown,
}

impl Clone for MiningEvent {
    fn clone(&self) -> (r: Self)
        ensures
            r == *self,
    {
        match self {
            MiningEvent::Advance => MiningEvent::Advance,
            MiningEvent::Init => MiningEvent::Init,
            MiningEvent::PauseByRpc => MiningEvent::PauseByRpc,
            MiningEvent::UnPauseByRpc => MiningEvent::UnPauseByRpc,
            MiningEvent::PauseBySyncBlocks => MiningEvent::PauseBySyncBlocks,
            MiningEvent::UnPauseBySyncBlocks => MiningEvent::UnPauseBySyncBlocks,
            MiningEvent::PauseByNeedConnection => MiningEvent::PauseByNeedConnection,
            MiningEvent::UnPauseByNeedConnection => MiningEvent::UnPauseByNeedConnection,
            MiningEvent::NewBlockProposal(b) => MiningEvent::NewBlockProposal(Box::new(**b)),
            MiningEvent::NewTipBlock => MiningEvent::NewTipBlock,
            MiningEvent::ComposeError => MiningEvent::ComposeError,
            MiningEvent::Shutdown => MiningEvent::Shutdown,
        }
    }
}

/// Handling an event (see `MiningStateMachine::handle_event`), the clock
/// reading `ts[0]`, `ts[1]`, ... in turn.
pub open spec fn handle_event_spec(m: MachineView, e: MiningEvent, ts: Seq<u128>) -> (MachineView, Result<(), InvalidStateTransition>) {
    match e {
        MiningEvent::Advance => advance_spec(m, ts),
        MiningEvent::Init => step(m, StatusView::Init(ts[0])),
        MiningEvent::PauseByRpc => (pause_by(m, MiningPausedReason::Rpc, ts[0]), Ok(())),
        MiningEvent::UnPauseByRpc => (unpause_by(m, MiningPausedReason::Rpc, ts[0], ts[1]), Ok(())),
        MiningEvent::PauseBySyncBlocks => (pause_by(m, MiningPausedReason::SyncBlocks, ts[0]), Ok(())),
        MiningEvent::UnPauseBySyncBlocks => (
            unpause_by(m, MiningPausedReason::SyncBlocks, ts[0], ts[1]),
            Ok(()),
        ),
        MiningEvent::PauseByNeedConnection => (
            pause_by(m, MiningPausedReason::NeedConnection, ts[0]),
            Ok(()),
        ),
        MiningEvent::UnPauseByNeedConnection => (
            unpause_by(m, MiningPausedReason::NeedConnection, ts[0], ts[1]),
            Ok(()),
        ),
        MiningEvent::NewBlockProposal(p) => if machine_state(m) == MiningState::Guessing {
            step(m, StatusView::Guessing(status_since(m.status), *p))
        } else {
            step(m, StatusView::AwaitBlock(ts[0], *p))
        },
        MiningEvent::NewTipBlock => step(m, StatusView::NewTipBlock(ts[0])),
        MiningEvent::ComposeError => step(m, StatusView::ComposeError(ts[0])),
        MiningEvent::Shutdown => step(m, StatusView::Shutdown(ts[0])),
    }
}


/// The values of a list of statuses.
pub open spec fn status_views(v: Seq<MiningStateData>) -> Seq<StatusView> {
    v.map_values(|d: MiningStateData| d@)
}

/// Moving to each of `ss` in turn with `advance_with`, stopping at the first
/// error; `tss[i]` are the clock readings while moving to `ss[i]`.
pub open spec fn states_spec(m: MachineView, ss: Seq<StatusView>, tss: Seq<Seq<u128>>) -> (MachineView, Result<(), InvalidStateTransition>)
    decreases ss.len(),
{
    if ss.len() == 0 {
        (m, Ok(()))
    } else {
        let (m1, r1) = states_spec(m, ss.drop_last(), tss.drop_last());
        if r1 is Err {
            (m1, r1)
        } else {
            advance_with_spec(m1, ss.last(), tss.last())
        }
    }
}

/// Handling each of `es` in turn, stopping at the first error; `tss[i]` are
/// the clock readings while handling `es[i]`.
pub open spec fn events_spec(m: MachineView, es: Seq<MiningEvent>, tss: Seq<Seq<u128>>) -> (MachineView, Result<(), InvalidStateTransition>)
    decreases es.len(),
{
    if es.len() == 0 {
        (m, Ok(()))
    } else {
        let (m1, r1) = events_spec(m, es.drop_last(), tss.drop_last());
        if r1 is Err {
            (m1, r1)
        } else {
            handle_event_spec(m1, es.last(), tss.last())
        }
    }
}

/// Once moving through a prefix of the statuses fails, the rest is not tried.
pub proof fn lemma_states_stop_at_error(m: MachineView, ss: Seq<StatusView>, tss: Seq<Seq<u128>>, k: int)
    requires
        0 <= k <= ss.len(),
        tss.len() == ss.len(),
        states_spec(m, ss.take(k), tss.take(k)).1 is Err,
    ensures
        states_spec(m, ss, tss) == states_spec(m, ss.take(k), tss.take(k)),
    decreases ss.len() - k,
{
    if k < ss.len() {
        assert(ss.drop_last().take(k) =~= ss.take(k));
        assert(tss.drop_last().take(k) =~= tss.take(k));
        lemma_states_stop_at_error(m, ss.drop_last(), tss.drop_last(), k);
    } else {
        assert(ss.take(k) =~= ss);
        assert(tss.take(k) =~= tss);
    }
}

/// One more item after a prefix.
pub proof fn lemma_states_step(m: MachineView, ss: Seq<StatusView>, tss: Seq<Seq<u128>>, x: StatusView, ts: Seq<u128>)
    ensures
        states_spec(m, ss.push(x), tss.push(ts)) == (if states_spec(m, ss, tss).1 is Err {
            states_spec(m, ss, tss)
        } else {
            advance_with_spec(states_spec(m, ss, tss).0, x, ts)
        }),
{
    assert(ss.push(x).drop_last() =~= ss);
    assert(tss.push(ts).drop_last() =~= tss);
}

/// Once handling a prefix of the events fails, the rest is not handled.
pub proof fn lemma_events_stop_at_error(m: MachineView, es: Seq<MiningEvent>, tss: Seq<Seq<u128>>, k: int)
    requires
        0 <= k <= es.len(),
        tss.len() == es.len(),
        events_spec(m, es.take(k), tss.take(k)).1 is Err,
    ensures
        events_spec(m, es, tss) == events_spec(m, es.take(k), tss.take(k)),
    decreases es.len() - k,
{
    if k < es.len() {
        assert(es.drop_last().take(k) =~= es.take(k));
        assert(tss.drop_last().take(k) =~= tss.take(k));
        lemma_events_stop_at_error(m, es.drop_last(), tss.drop_last(), k);
    } else {
        assert(es.take(k) =~= es);
        assert(tss.take(k) =~= tss);
    }
}

/// One more item after a prefix.
pub proof fn lemma_events_step(m: MachineView, es: Seq<MiningEvent>, tss: Seq<Seq<u128>>, x: MiningEvent, ts: Seq<u128>)
    ensures
        events_spec(m, es.push(x), tss.push(ts)) == (if events_spec(m, es, tss).1 is Err {
            events_spec(m, es, tss)
        } else {
            handle_event_spec(events_spec(m, es, tss).0, x, ts)
        }),
{
    assert(es.push(x).drop_last() =~= es);
    assert(tss.push(ts).drop_last() =~= tss);
}

/// Whether handling `es` in turn, with clock readings `tss`, never meets an
/// `Advance` event in a state where advancing never returns.
pub open spec fn events_never_loop(m: MachineView, es: Seq<MiningEvent>, tss: Seq<Seq<u128>>) -> bool
    decreases es.len(),
{
    if es.len() == 0 {
        true
    } else {
        let (m1, r1) = events_spec(m, es.drop_last(), tss.drop_last());
        &&& events_never_loop(m, es.drop_last(), tss.drop_last())
        &&& (r1 is Ok && es.last() is Advance ==> !advance_loops(m1))
    }
}

/// A list of events that never loops has prefixes that never loop.
pub proof fn lemma_never_loop_prefix(m: MachineView, es: Seq<MiningEvent>, tss: Seq<Seq<u128>>, k: int)
    requires
        0 <= k <= es.len(),
        es.len() == tss.len(),
        events_never_loop(m, es, tss),
    ensures
        events_never_loop(m, es.take(k), tss.take(k)),
    decreases es.len() - k,
{
    if k < es.len() {
        assert(es.drop_last().take(k) =~= es.take(k));
        assert(tss.drop_last().take(k) =~= tss.take(k));
        lemma_never_loop_prefix(m, es.drop_last(), tss.drop_last(), k);
    } else {
        assert(es.take(k) =~= es);
        assert(tss.take(k) =~= tss);
    }
}

/// A state machine for mining: it responds to events, works out the next
/// status and checks that moving there is allowed.
#[derive(Debug)]
pub struct MiningStateMachine {
    state_data: MiningStateData,
    paused_while_syncing: bool,
    paused_by_rpc: bool,
    paused_need_connection: bool,
    role_compose: bool,
    role_guess: bool,
    strict_state_transitions: bool,
}

impl View for MiningStateMachine {
    type V = MachineView;

    closed spec fn view(&self) -> MachineView {
        MachineView {
            status: self.state_data@,
            paused_while_syncing: self.paused_while_syncing,
            paused_by_rpc: self.paused_by_rpc,
            paused_need_connection: self.paused_need_connection,
            role_compose: self.role_compose,
            role_guess: self.role_guess,
            strict_state_transitions: self.strict_state_transitions,
        }
    }
}

impl Clone for MiningStateMachine {
    fn clone(&self) -> (r: Self)
        ensures
            r@ == self@,
    {
        MiningStateMachine {
            state_data: self.state_data.clone(),
            paused_while_syncing: self.paused_while_syncing,
            paused_by_rpc: self.paused_by_rpc,
            paused_need_connection: self.paused_need_connection,
            role_compose: self.role_compose,
            role_guess: self.role_guess,
            strict_state_transitions: self.strict_state_transitions,
        }
    }
}

impl MiningStateMachine {
    /// A machine in state Init with no pause flag set.
    pub fn new(strict_state_transitions: bool, role_compose: bool, role_guess: bool) -> (r: Self)
        ensures
            r@ == initial_machine(
                status_since(r@.status),
                role_compose,
                role_guess,
                strict_state_transitions,
            ),
    {
        Self {
            state_data: MiningStateData::init(),
            paused_while_syncing: false,
            paused_by_rpc: false,
            paused_need_connection: false,
            strict_state_transitions,
            role_compose,
            role_guess,
        }
    }

    /// The machine's configuration.
    pub fn config(&self) -> (r: MiningStateMachineConfig)
        ensures
            r.strict_state_transitions == self@.strict_state_transitions,
            r.role_compose == self@.role_compose,
            r.role_guess == self@.role_guess,
    {
        MiningStateMachineConfig {
            strict_state_transitions: self.strict_state_transitions,
            role_compose: self.role_compose,
            role_guess: self.role_guess,
        }
    }

    pub fn set_strict_state_transitions(&mut self, strict: bool)
        ensures
            final(self)@ == (MachineView { strict_state_transitions: strict, ..old(self)@ }),
    {
        self.strict_state_transitions = strict;
    }

    /// The present status.
    pub fn state_data(&self) -> (r: &MiningStateData)
        ensures
            r@ == self@.status,
    {
        &self.state_data
    }

    /// Puts the machine in status `status` whatever the transition rules say.
    pub fn force_state_data(&mut self, status: MiningStateData)
        ensures
            final(self)@ == with_status(old(self)@, status@),
    {
        self.state_data = status;
    }

    /// Whether the machine is paused while syncing blocks.
    pub fn paused_while_syncing(&self) -> (r: bool)
        ensures
            r == self@.paused_while_syncing,
    {
        self.paused_while_syncing
    }

    /// Whether the machine is paused by the user.
    pub fn paused_by_rpc(&self) -> (r: bool)
        ensures
            r == self@.paused_by_rpc,
    {
        self.paused_by_rpc
    }

    /// Whether the machine is paused for want of connections.
    pub fn paused_need_connection(&self) -> (r: bool)
        ensures
            r == self@.paused_need_connection,
    {
        self.paused_need_connection
    }

    /// How many pause flags are set.
    pub fn paused_count(&self) -> (r: u8)
        ensures
            r == paused_count(self@),
    {
        (if self.paused_by_rpc { 1u8 } else { 0u8 }) + (if self.paused_while_syncing { 1u8 } else { 0u8 })
            + (if self.paused_need_connection { 1u8 } else { 0u8 })
    }

    /// Whether the machine composes or guesses.
    pub fn mining_enabled(&self) -> (r: bool)
        ensures
            r == mining_enabled(self@),
    {
        self.role_compose || self.role_guess
    }

    pub fn can_start_guessing(&self) -> (r: bool)
        ensures
            r == (self@.role_guess && machine_state(self@) == MiningState::AwaitBlock),
    {
        self.role_guess && self.state_data.state() == MiningState::AwaitBlock
    }

    pub fn can_guess(&self) -> (r: bool)
        ensures
            r == (self@.role_guess && machine_state(self@) == MiningState::Guessing),
    {
        self.role_guess && self.state_data.state() == MiningState::Guessing
    }

    pub fn can_start_composing(&self) -> (r: bool)
        ensures
            r == (self@.role_compose && machine_state(self@) == MiningState::AwaitBlockProposal),
    {
        self.role_compose && self.state_data.state() == MiningState::AwaitBlockProposal
    }

    pub fn can_compose(&self) -> (r: bool)
        ensures
            r == (self@.role_compose && machine_state(self@) == MiningState::Composing),
    {
        self.role_compose && self.state_data.state() == MiningState::Composing
    }

    /// Whether the machine may move to `status` (see [`allowed`]).
    pub fn allowed(&self, status: &MiningStateData) -> (r: bool)
        ensures
            r == allowed(self@, status@),
    {
        let state = status.state();
        if state == self.state_data.state() && state == MiningState::Init {
            true
        } else if status.same_as(&self.state_data) {
            true
        } else if !self.mining_enabled() {
            state == MiningState::Disabled
        } else if self.paused_count() > 1 {
            state == MiningState::Shutdown
        } else {
            let allowed_states = allowed_transitions(self.state_data.state());
            contains_state(&allowed_states, state)
        }
    }

    fn ensure_allowed(&self, new_status: &MiningStateData) -> (r: Result<(), InvalidStateTransition>)
        ensures
            r == (if allowed(self@, new_status@) {
                Ok(())
            } else {
                Err(
                    InvalidStateTransition {
                        old_state: machine_state(self@),
                        new_state: status_state(new_status@),
                    },
                )
            }),
    {
        if self.allowed(new_status) {
            Ok(())
        } else {
            Err(InvalidStateTransition { old_state: self.state_data.state(), new_state: new_status.state() })
        }
    }

    fn set_new_status(&mut self, new_status: MiningStateData)
        ensures
            final(self)@ == with_status(old(self)@, new_status@),
    {
        self.state_data = new_status;
    }

    fn set_pause_flag(&mut self, reason: MiningPausedReason, v: bool)
        ensures
            final(self)@ == with_pause_flag(old(self)@, reason, v),
    {
        match reason {
            MiningPausedReason::Rpc => self.paused_by_rpc = v,
            MiningPausedReason::SyncBlocks => self.paused_while_syncing = v,
            MiningPausedReason::NeedConnection => self.paused_need_connection = v,
        }
    }

    /// Merges a pause for `reason` into the status: a paused status keeps its
    /// time and gains the reason (each reason once); any other status is
    /// replaced by `new_status`.
    fn merge_set_paused_status(&mut self, new_status: MiningStateData, reason: MiningPausedReason)
        requires
            new_status@ == StatusView::Paused(status_since(new_status@), seq![reason]),
        ensures
            final(self)@ == with_status(old(self)@, merged_pause(old(self)@, reason, status_since(new_status@))),
    {
        let merged = merge_paused_status(&self.state_data, new_status, reason);
        self.set_new_status(merged);
    }

    /// Pauses for `reason`: merges the pause status in when allowed, and sets
    /// the reason's flag either way.
    fn pause(&mut self, reason: MiningPausedReason)
        ensures
            exists|t: u128| final(self)@ == pause_by(old(self)@, reason, t),
    {
        let new_status = MiningStateData::paused(reason);
        let ghost t = status_since(new_status@);
        if self.allowed(&new_status) {
            self.merge_set_paused_status(new_status, reason);
        }
        self.set_pause_flag(reason, true);
        assert(self@ == pause_by(old(self)@, reason, t));
    }

    /// Un-pauses for `reason`: tries to move to UnPaused then to Init, and
    /// clears the reason's flag.
    fn unpause(&mut self, reason: MiningPausedReason)
        ensures
            exists|t1: u128, t2: u128| final(self)@ == unpause_by(old(self)@, reason, t1, t2),
    {
        let s1 = MiningStateData::unpaused();
        let ghost t1 = status_since(s1@);
        let _ = self.step_to(s1);
        let s2 = MiningStateData::init();
        let ghost t2 = status_since(s2@);
        let _ = self.step_to(s2);
        self.set_pause_flag(reason, false);
        assert(self@ == unpause_by(old(self)@, reason, t1, t2));
    }

    /// Moves to a status that is not a pause, as [`step`] says.
    fn step_to(&mut self, new_status: MiningStateData) -> (r: Result<(), InvalidStateTransition>)
        requires
            !(new_status@ is Paused),
        ensures
            (final(self)@, r) == step(old(self)@, new_status@),
    {
        if self.strict_state_transitions {
            let res = self.ensure_allowed(&new_status);
            match res {
                Ok(()) => {
                    self.set_new_status(new_status);
                    Ok(())
                },
                Err(e) => Err(e),
            }
        } else {
            if self.allowed(&new_status) {
                self.set_new_status(new_status);
            }
            Ok(())
        }
    }

    /// Moves to `new_status`. A pause status pauses for each of its reasons;
    /// for any other status the move happens when allowed, and otherwise a
    /// strict machine returns an error and a lenient one ignores it.
    ///
    /// prefer advance() and handle_event() instead.
    pub fn advance_with(&mut self, new_status: MiningStateData) -> (r: Result<(), InvalidStateTransition>)
        requires
            match new_status@ {
                StatusView::Paused(_, rs) => rs.len() > 0,
                _ => true,
            },
        ensures
            exists|ts: Seq<u128>| (final(self)@, r) == advance_with_spec(old(self)@, new_status@, ts),
    {
        let ghost target = new_status@;
        match new_status {
            MiningStateData::Paused(_, reasons) => {
                let ghost m0 = self@;
                let ghost mut ts: Seq<u128> = Seq::empty();
                let mut i: usize = 0;
                while i < reasons.len()
                    invariant
                        i <= reasons.len(),
                        ts.len() == i,
                        self@ == pause_all(m0, reasons@.take(i as int), ts),
                    decreases reasons.len() - i,
                {
                    let ghost before = self@;
                    self.pause(reasons[i]);
                    let ghost t = choose|t: u128| self@ == pause_by(before, reasons@[i as int], t);
                    proof {
                        let ts2 = ts.push(t);
                        let rs2 = reasons@.take(i + 1);
                        assert(rs2.drop_last() =~= reasons@.take(i as int));
                        lemma_pause_all_prefix(m0, reasons@.take(i as int), ts, ts2);
                        ts = ts2;
                    }
                    i = i + 1;
                }
                proof {
                    assert(reasons@.take(reasons@.len() as int) =~= reasons@);
                    assert((self@, Ok::<(), InvalidStateTransition>(())) == advance_with_spec(m0, target, ts));
                }
                Ok(())
            },
            _ => {
                let r = self.step_to(new_status);
                assert((self@, r) == advance_with_spec(old(self)@, new_status@, Seq::empty()));
                r
            },
        }
    }

    /// advances to next state in the happy path, taking role into account.
    ///
    /// The happy path cycles Init, AwaitBlockProposal, Composing, AwaitBlock,
    /// Guessing, NewTipBlock. A composer goes on past AwaitBlockProposal and
    /// Guessing, a guesser past AwaitBlock, and past Composing unless it
    /// also composes (a machine of both roles composes). Advancing to
    /// AwaitBlock is refused: that takes a block proposal. A state off the
    /// happy path is left as it is.
    ///
    /// this is equivalent to `::handle_event(MiningEvent::Advance)`
    pub fn advance(&mut self) -> (r: Result<(), InvalidStateTransition>)
        requires
            !advance_loops(old(self)@),
        ensures
            exists|ts: Seq<u128>| (final(self)@, r) == advance_spec(old(self)@, ts),
        decreases advance_rank(machine_state(old(self)@)),
    {
        let ghost m0 = self@;
        let old_state = self.state_data.state();
        let next = match happy_path_successor(old_state) {
            Some(n) => n,
            None => {
                assert((self@, Ok::<(), InvalidStateTransition>(())) == advance_spec(m0, Seq::empty()));
                return Ok(());
            },
        };
        if next == MiningState::AwaitBlock {
            let e = InvalidStateTransition { old_state, new_state: MiningState::AwaitBlock };
            assert((self@, Err::<(), InvalidStateTransition>(e)) == advance_spec(m0, Seq::empty()));
            return Err(e);
        }
        let new_status = match (next, &self.state_data) {
            (MiningState::Guessing, MiningStateData::AwaitBlock(_, proposal)) => {
                MiningStateData::guessing(GuessingWorkInfo::new(Box::new(**proposal)))
            },
            _ => match MiningStateData::try_from_state(next) {
                Some(d) => d,
                None => {
                    assert(false);
                    return Ok(());
                },
            },
        };
        let ghost t = status_since(new_status@);
        assert(new_status@ == advance_target(m0.status, next, t));
        let res = self.advance_with(new_status);
        let ghost m1 = self@;
        assert((m1, res) == step(m0, advance_target(m0.status, next, t)));
        if let Err(e) = res {
            assert((self@, res) == advance_spec(m0, seq![t]));
            return Err(e);
        }
        let go_on = match next {
            MiningState::AwaitBlockProposal => self.role_compose,
            MiningState::Guessing => self.role_compose,
            MiningState::Composing => self.role_guess && !self.role_compose,
            MiningState::AwaitBlock => self.role_guess,
            _ => false,
        };
        if go_on {
            assert(machine_state(m1) == next);
            let r = self.advance();
            let ghost rest = choose|ts: Seq<u128>| (self@, r) == advance_spec(m1, ts);
            proof {
                let ts = seq![t] + rest;
                assert(ts.drop_first() =~= rest);
                assert(ts[0] == t);
                assert((self@, r) == advance_spec(m0, ts));
            }
            return r;
        }
        assert((self@, Ok::<(), InvalidStateTransition>(())) == advance_spec(m0, seq![t]));
        Ok(())
    }

    /// handles an event.
    ///
    /// the `Advance` event moves to the next state in the happy-path (see
    /// `::advance()`); pause and unpause events pause or unpause for their
    /// reason; a new block proposal while guessing replaces the block worked
    /// on and keeps the time guessing started; every other event moves to its
    /// status when that is allowed.
    pub fn handle_event(&mut self, event: MiningEvent) -> (r: Result<(), InvalidStateTransition>)
        requires
            event is Advance ==> !advance_loops(old(self)@),
        ensures
            exists|ts: Seq<u128>| (final(self)@, r) == handle_event_spec(old(self)@, event, ts),
    {
        let ghost m0 = self@;
        let ghost ev = event;
        match event {
            MiningEvent::Advance => {
                let r = self.advance();
                let ghost ts = choose|ts: Seq<u128>| (self@, r) == advance_spec(m0, ts);
                assert((self@, r) == handle_event_spec(m0, ev, ts));
                r
            },
            MiningEvent::PauseByRpc => self.handle_pause(MiningPausedReason::Rpc, Ghost(ev)),
            MiningEvent::PauseBySyncBlocks => self.handle_pause(MiningPausedReason::SyncBlocks, Ghost(ev)),
            MiningEvent::PauseByNeedConnection => self.handle_pause(
                MiningPausedReason::NeedConnection,
                Ghost(ev),
            ),
            MiningEvent::UnPauseByRpc => self.handle_unpause(MiningPausedReason::Rpc, Ghost(ev)),
            MiningEvent::UnPauseBySyncBlocks => self.handle_unpause(MiningPausedReason::SyncBlocks, Ghost(ev)),
            MiningEvent::UnPauseByNeedConnection => self.handle_unpause(
                MiningPausedReason::NeedConnection,
                Ghost(ev),
            ),
            MiningEvent::NewBlockProposal(proposal) => {
                if self.state_data.state() == MiningState::Guessing {
                    let since = self.state_data.since();
                    let s = MiningStateData::Guessing(since, GuessingWorkInfo::new(proposal));
                    let r = self.step_to(s);
                    assert((self@, r) == handle_event_spec(m0, ev, Seq::empty()));
                    r
                } else {
                    let s = MiningStateData::await_block(proposal);
                    let ghost t = status_since(s@);
                    let r = self.step_to(s);
                    assert((self@, r) == handle_event_spec(m0, ev, seq![t]));
                    r
                }
            },
            MiningEvent::Init => {
                let s = MiningStateData::init();
                self.handle_plain(s, Ghost(ev))
            },
            MiningEvent::NewTipBlock => {
                let s = MiningStateData::new_tip_block();
                self.handle_plain(s, Ghost(ev))
            },
            MiningEvent::ComposeError => {
                let s = MiningStateData::compose_error();
                self.handle_plain(s, Ghost(ev))
            },
            MiningEvent::Shutdown => {
                let s = MiningStateData::shutdown();
                self.handle_plain(s, Ghost(ev))
            },
        }
    }

    fn handle_pause(&mut self, reason: MiningPausedReason, Ghost(ev): Ghost<MiningEvent>) -> (r: Result<(), InvalidStateTransition>)
        requires
            ev == match reason {
                MiningPausedReason::Rpc => MiningEvent::PauseByRpc,
                MiningPausedReason::SyncBlocks => MiningEvent::PauseBySyncBlocks,
                MiningPausedReason::NeedConnection => MiningEvent::PauseByNeedConnection,
            },
        ensures
            exists|ts: Seq<u128>| (final(self)@, r) == handle_event_spec(old(self)@, ev, ts),
    {
        let ghost m0 = self@;
        self.pause(reason);
        let ghost t = choose|t: u128| self@ == pause_by(m0, reason, t);
        assert((self@, Ok::<(), InvalidStateTransition>(())) == handle_event_spec(m0, ev, seq![t]));
        Ok(())
    }

    fn handle_unpause(&mut self, reason: MiningPausedReason, Ghost(ev): Ghost<MiningEvent>) -> (r: Result<(), InvalidStateTransition>)
        requires
            ev == match reason {
                MiningPausedReason::Rpc => MiningEvent::UnPauseByRpc,
                MiningPausedReason::SyncBlocks => MiningEvent::UnPauseBySyncBlocks,
                MiningPausedReason::NeedConnection => MiningEvent::UnPauseByNeedConnection,
            },
        ensures
            exists|ts: Seq<u128>| (final(self)@, r) == handle_event_spec(old(self)@, ev, ts),
    {
        let ghost m0 = self@;
        self.unpause(reason);
        let ghost (t1, t2) = choose|t1: u128, t2: u128| self@ == unpause_by(m0, reason, t1, t2);
        assert((self@, Ok::<(), InvalidStateTransition>(())) == handle_event_spec(m0, ev, seq![t1, t2]));
        Ok(())
    }

    fn handle_plain(&mut self, s: MiningStateData, Ghost(ev): Ghost<MiningEvent>) -> (r: Result<(), InvalidStateTransition>)
        requires
            s@ == match ev {
                MiningEvent::Init => StatusView::Init(status_since(s@)),
                MiningEvent::NewTipBlock => StatusView::NewTipBlock(status_since(s@)),
                MiningEvent::ComposeError => StatusView::ComposeError(status_since(s@)),
                _ => StatusView::Shutdown(status_since(s@)),
            },
            ev is Init || ev is NewTipBlock || ev is ComposeError || ev is Shutdown,
        ensures
            exists|ts: Seq<u128>| (final(self)@, r) == handle_event_spec(old(self)@, ev, ts),
    {
        let ghost m0 = self@;
        let ghost t = status_since(s@);
        let r = self.advance_with(s);
        assert((self@, r) == step(m0, s@));
        assert((self@, r) == handle_event_spec(m0, ev, seq![t]));
        r
    }

    /// shortcut for:
    ///
    /// if need_connection {
    ///   ::handle_event(MiningEvent::PauseByNeedConnection)
    /// } else {
    ///   ::handle_event(MiningEvent::UnPauseByNeedConnection)
    /// }
    ///
    /// except that nothing happens when the flag already has the given value.
    pub fn set_need_connection(&mut self, need_connection: bool)
        ensures
            old(self)@.paused_need_connection == need_connection ==> final(self)@ == old(self)@,
            old(self)@.paused_need_connection != need_connection && need_connection ==> exists|t: u128|
                final(self)@ == pause_by(old(self)@, MiningPausedReason::NeedConnection, t),
            old(self)@.paused_need_connection != need_connection && !need_connection ==> exists|t1: u128, t2: u128|
                final(self)@ == unpause_by(old(self)@, MiningPausedReason::NeedConnection, t1, t2),
    {
        if self.paused_need_connection != need_connection {
            if need_connection {
                self.pause(MiningPausedReason::NeedConnection);
            } else {
                self.unpause(MiningPausedReason::NeedConnection);
            }
        }
    }

    /// shortcut for:
    ///
    /// if syncing {
    ///   ::handle_event(MiningEvent::PauseBySyncBlocks)
    /// } else {
    ///   ::handle_event(MiningEvent::UnPauseBySyncBlocks)
    /// }
    ///
    /// except that nothing happens when the flag already has the given value.
    pub fn set_syncing(&mut self, syncing: bool)
        ensures
            old(self)@.paused_while_syncing == syncing ==> final(self)@ == old(self)@,
            old(self)@.paused_while_syncing != syncing && syncing ==> exists|t: u128|
                final(self)@ == pause_by(old(self)@, MiningPausedReason::SyncBlocks, t),
            old(self)@.paused_while_syncing != syncing && !syncing ==> exists|t1: u128, t2: u128|
                final(self)@ == unpause_by(old(self)@, MiningPausedReason::SyncBlocks, t1, t2),
    {
        if self.paused_while_syncing != syncing {
            if syncing {
                self.pause(MiningPausedReason::SyncBlocks);
            } else {
                self.unpause(MiningPausedReason::SyncBlocks);
            }
        }
    }

    /// Moves to each status of `states` in turn with `advance_with`, stopping
    /// at the first error.
    pub fn exec_states(&mut self, states: Vec<MiningStateData>) -> (r: Result<(), InvalidStateTransition>)
        requires
            forall|i: int| 0 <= i < states@.len() ==> match #[trigger] states@[i]@ {
                StatusView::Paused(_, rs) => rs.len() > 0,
                _ => true,
            },
        ensures
            exists|tss: Seq<Seq<u128>>| (final(self)@, r) == states_spec(old(self)@, status_views(states@), tss),
    {
        let ghost m0 = self@;
        let ghost views = status_views(states@);
        let ghost mut tss: Seq<Seq<u128>> = Seq::empty();
        let mut i: usize = 0;
        let ghost all = states@;
        let mut rest = states;
        assert(all.len() == rest.len());
        loop
            invariant
                i <= all.len(),
                tss.len() == i,
                views == status_views(all),
                all == states@,
                rest@ == all.skip(i as int),
                all.len() <= usize::MAX,
                forall|k: int| 0 <= k < all.len() ==> match #[trigger] all[k]@ {
                    StatusView::Paused(_, rs) => rs.len() > 0,
                    _ => true,
                },
                (self@, Ok::<(), InvalidStateTransition>(())) == states_spec(m0, views.take(i as int), tss),
                m0 == old(self)@,
            decreases all.len() - i,
        {
            let ghost before = self@;
            if rest.len() == 0 {
                {
                    proof {
                        assert(views.take(i as int) =~= views);
                        assert((self@, Ok::<(), InvalidStateTransition>(())) == states_spec(m0, views, tss));
                        assert(views == status_views(states@));
                    }
                    return Ok(());
                }
            } else {
                {
                    let state = rest.remove(0);
                    assert(state == all[i as int]);
                    assert(rest@ =~= all.skip(i + 1));
                    let res = self.advance_with(state);
                    let ghost ts = choose|ts: Seq<u128>| (self@, res) == advance_with_spec(before, views[i as int], ts);
                    proof {
                        let tss2 = tss.push(ts);
                        assert(views.take(i + 1) =~= views.take(i as int).push(views[i as int]));
                        lemma_states_step(m0, views.take(i as int), tss, views[i as int], ts);
                        tss = tss2;
                    }
                    i = i + 1;
                    if res.is_err() {
                        proof {
                            let pad = tss + Seq::new((all.len() - i) as nat, |k: int| Seq::<u128>::empty());
                            assert(pad.take(i as int) =~= tss);
                            assert(pad.len() == views.len());
                            lemma_states_stop_at_error(m0, views, pad, i as int);
                            assert((self@, res) == states_spec(m0, views, pad));
                            assert(views == status_views(states@));
                        }
                        return res;
                    }
                }
            }
        }
    }

    /// Handles each event of `events` in turn, stopping at the first error.
    #[verifier::rlimit(40)]
    pub fn exec_events(&mut self, events: Vec<MiningEvent>) -> (r: Result<(), InvalidStateTransition>)
        requires
            forall|tss: Seq<Seq<u128>>| #[trigger] events_never_loop(old(self)@, events@, tss),
        ensures
            exists|tss: Seq<Seq<u128>>| (final(self)@, r) == events_spec(old(self)@, events@, tss),
    {
        let ghost m0 = self@;
        let ghost all = events@;
        let ghost mut tss: Seq<Seq<u128>> = Seq::empty();
        let mut i: usize = 0;
        let mut rest = events;
        assert(all.len() == rest.len());
        loop
            invariant
                i <= all.len(),
                tss.len() == i,
                rest@ == all.skip(i as int),
                all.len() <= usize::MAX,
                forall|tss: Seq<Seq<u128>>| #[trigger] events_never_loop(m0, all, tss),
                all == events@,
                m0 == old(self)@,
                (self@, Ok::<(), InvalidStateTransition>(())) == events_spec(m0, all.take(i as int), tss),
            decreases all.len() - i,
        {
            let ghost before = self@;
            if rest.len() == 0 {
                {
                    proof {
                        assert(all.take(i as int) =~= all);
                        assert((self@, Ok::<(), InvalidStateTransition>(())) == events_spec(m0, all, tss));
                    }
                    return Ok(());
                }
            } else {
                {
                    let event = rest.remove(0);
                    assert(event == all[i as int]);
                    assert(rest@ =~= all.skip(i + 1));
                    proof {
                        let pad = tss + Seq::new((all.len() - i) as nat, |k: int| Seq::<u128>::empty());
                        assert(events_never_loop(m0, all, pad));
                        lemma_never_loop_prefix(m0, all, pad, i + 1);
                        assert(all.take(i + 1).drop_last() =~= all.take(i as int));
                        assert(pad.take(i + 1).drop_last() =~= tss);
                    }
                    let res = self.handle_event(event);
                    let ghost ts = choose|ts: Seq<u128>| (self@, res) == handle_event_spec(before, all[i as int], ts);
                    proof {
                        let tss2 = tss.push(ts);
                        assert(all.take(i + 1) =~= all.take(i as int).push(all[i as int]));
                        lemma_events_step(m0, all.take(i as int), tss, all[i as int], ts);
                        assert((self@, res) == handle_event_spec(before, all[i as int], ts));
                        assert(events_spec(m0, all.take(i as int), tss).0 == before);
                        assert((self@, res) == events_spec(m0, all.take(i + 1), tss2));
                        tss = tss2;
                    }
                    i = i + 1;
                    let ghost r0 = res;
                    match res {
                        Ok(u) => {
                            assert(res == Ok::<(), InvalidStateTransition>(u));
                            assert(r0 == Ok::<(), InvalidStateTransition>(()));
                            assert((self@, r0) == events_spec(m0, all.take(i as int), tss));
                        },
                        Err(e) => {
                            proof {
                                let pad = tss + Seq::new((all.len() - i) as nat, |k: int| Seq::<u128>::empty());
                                assert(pad.take(i as int) =~= tss);
                                assert(pad.len() == all.len());
                                lemma_events_stop_at_error(m0, all, pad, i as int);
                                assert((self@, r0) == events_spec(m0, all, pad));
                            }
                            return Err(e);
                        },
                    }
                }
            }
        }
    }
}

/// The next state on the happy path, found among the circular successor pairs
/// of the path.
pub fn happy_path_successor(s: MiningState) -> (r: Option<MiningState>)
    ensures
        r == happy_next(s),
{
    let path: Vec<u8> = vec![0, 1, 2, 3, 4, 5];
    let pairs = circular_successor_pairs(&path);
    let n = s.number();
    proof {
        assert(path@ =~= seq![0u8, 1, 2, 3, 4, 5]);
        assert(pairs@.len() == 6);
        assert forall|j: int| 0 <= j < 6 implies #[trigger] pairs@[j] == (j as u8, ((j + 1) % 6) as u8) by {}
    }
    let mut i: usize = 0;
    while i < pairs.len()
        invariant
            i <= pairs@.len(),
            pairs@.len() == 6,
            n == state_number(s),
            forall|j: int| 0 <= j < 6 ==> #[trigger] pairs@[j] == (j as u8, ((j + 1) % 6) as u8),
            forall|j: int| 0 <= j < i ==> pairs@[j].0 != n,
        decreases pairs.len() - i,
    {
        let (prev, succ) = pairs[i];
        if prev == n {
            assert(n == i);
            return MiningState::from_number(succ);
        }
        i = i + 1;
    }
    assert(pairs@[0].0 != n && pairs@[1].0 != n && pairs@[2].0 != n && pairs@[3].0 != n
        && pairs@[4].0 != n && pairs@[5].0 != n);
    None
}


/// The mining status reported to RPC clients: the status with each block
/// replaced by its summary.
#[derive(Debug)]
pub enum MiningStatus {
    Disabled(u128),
    Init(u128),
    Paused(u128, Vec<MiningPausedReason>),
    UnPaused(u128),
    AwaitBlockProposal(u128),
    AwaitBlock(u128, BlockSummary),
    Composing(u128),
    Guessing(u128, BlockSummary),
    NewTipBlock(u128),
    ComposeError(u128),
    Shutdown(u128),
}

/// The mathematical value of a [`MiningStatus`].
pub enum MiningStatusView {
    Disabled(u128),
    Init(u128),
    Paused(u128, Seq<MiningPausedReason>),
    UnPaused(u128),
    AwaitBlockProposal(u128),
    AwaitBlock(u128, BlockSummary),
    Composing(u128),
    Guessing(u128, BlockSummary),
    NewTipBlock(u128),
    ComposeError(u128),
    Shutdown(u128),
}

impl View for MiningStatus {
    type V = MiningStatusView;

    open spec fn view(&self) -> MiningStatusView {
        match self {
            MiningStatus::Disabled(t) => MiningStatusView::Disabled(*t),
            MiningStatus::Init(t) => MiningStatusView::Init(*t),
            MiningStatus::Paused(t, r) => MiningStatusView::Paused(*t, r@),
            MiningStatus::UnPaused(t) => MiningStatusView::UnPaused(*t),
            MiningStatus::AwaitBlockProposal(t) => MiningStatusView::AwaitBlockProposal(*t),
            MiningStatus::AwaitBlock(t, b) => MiningStatusView::AwaitBlock(*t, *b),
            MiningStatus::Composing(t) => MiningStatusView::Composing(*t),
            MiningStatus::Guessing(t, b) => MiningStatusView::Guessing(*t, *b),
            MiningStatus::NewTipBlock(t) => MiningStatusView::NewTipBlock(*t),
            MiningStatus::ComposeError(t) => MiningStatusView::ComposeError(*t),
            MiningStatus::Shutdown(t) => MiningStatusView::Shutdown(*t),
        }
    }
}

/// The report of a status.
pub open spec fn status_report(s: StatusView) -> MiningStatusView {
    match s {
        StatusView::Disabled(t) => MiningStatusView::Disabled(t),
        StatusView::Init(t) => MiningStatusView::Init(t),
        StatusView::Paused(t, r) => MiningStatusView::Paused(t, r),
        StatusView::UnPaused(t) => MiningStatusView::UnPaused(t),
        StatusView::AwaitBlockProposal(t) => MiningStatusView::AwaitBlockProposal(t),
        StatusView::AwaitBlock(t, b) => MiningStatusView::AwaitBlock(t, summary_of(b)),
        StatusView::Composing(t) => MiningStatusView::Composing(t),
        StatusView::Guessing(t, b) => MiningStatusView::Guessing(t, summary_of(b)),
        StatusView::NewTipBlock(t) => MiningStatusView::NewTipBlock(t),
        StatusView::ComposeError(t) => MiningStatusView::ComposeError(t),
        StatusView::Shutdown(t) => MiningStatusView::Shutdown(t),
    }
}

/// The state of a reported status.
pub open spec fn report_state(s: MiningStatusView) -> MiningState {
    match s {
        MiningStatusView::Disabled(_) => MiningState::Disabled,
        MiningStatusView::Init(_) => MiningState::Init,
        MiningStatusView::Paused(..) => MiningState::Paused,
        MiningStatusView::UnPaused(_) => MiningState::UnPaused,
        MiningStatusView::AwaitBlockProposal(_) => MiningState::AwaitBlockProposal,
        MiningStatusView::AwaitBlock(..) => MiningState::AwaitBlock,
        MiningStatusView::Composing(_) => MiningState::Composing,
        MiningStatusView::Guessing(..) => MiningState::Guessing,
        MiningStatusView::NewTipBlock(_) => MiningState::NewTipBlock,
        MiningStatusView::ComposeError(_) => MiningState::ComposeError,
        MiningStatusView::Shutdown(_) => MiningState::Shutdown,
    }
}

/// The time a reported status was entered.
pub open spec fn report_since(s: MiningStatusView) -> u128 {
    match s {
        MiningStatusView::Disabled(t) => t,
        MiningStatusView::Init(t) => t,
        MiningStatusView::Paused(t, _) => t,
        MiningStatusView::UnPaused(t) => t,
        MiningStatusView::AwaitBlockProposal(t) => t,
        MiningStatusView::AwaitBlock(t, _) => t,
        MiningStatusView::Composing(t) => t,
        MiningStatusView::Guessing(t, _) => t,
        MiningStatusView::NewTipBlock(t) => t,
        MiningStatusView::ComposeError(t) => t,
        MiningStatusView::Shutdown(t) => t,
    }
}

/// The descriptions of pause reasons.
pub open spec fn reason_descriptions(rs: Seq<MiningPausedReason>) -> Seq<Seq<char>> {
    rs.map_values(|r: MiningPausedReason| reason_description(r))
}

/// The text shown for a reported status, given the rendering of the time
/// elapsed since the status was entered:
/// a disabled status shows its state's name; a paused one
/// `paused for <elapsed>  (<reasons, comma separated>)`; any other
/// `<state> for <elapsed>`; guessing adds ` <inputs>/<outputs>` and
/// `; total guesser reward: <fee>`.
pub open spec fn report_text_with(s: MiningStatusView, elapsed_text: Seq<char>) -> Seq<char> {
    let work = match s {
        MiningStatusView::Disabled(_) => state_name(MiningState::Disabled),
        MiningStatusView::Paused(_, rs) => "paused for "@ + elapsed_text + "  ("@ + seq_join(
            reason_descriptions(rs),
            ", "@,
        ) + ")"@,
        _ => state_name(report_state(s)) + " for "@ + elapsed_text,
    };
    let io_info = match s {
        MiningStatusView::Guessing(_, b) => " "@ + decimal(b.num_inputs as nat) + "/"@ + decimal(
            b.num_outputs as nat,
        ),
        _ => Seq::empty(),
    };
    let reward = match s {
        MiningStatusView::Guessing(_, b) => "; total guesser reward: "@ + signed_decimal(
            b.total_guesser_fee.0 as int,
        ),
        _ => Seq::empty(),
    };
    work + io_info + reward
}

/// The text shown for a reported status at time `now` (see
/// [`report_text_with`]), the elapsed time rendered by
/// [`human_duration_text`].
pub open spec fn report_text(s: MiningStatusView, now: u128) -> Seq<char> {
    report_text_with(s, human_duration_text(elapsed_between(report_since(s), now)))
}

impl MiningStatus {
    /// The report of a status.
    pub fn from_state_data(ms: &MiningStateData) -> (r: Self)
        ensures
            r@ == status_report(ms@),
    {
        match ms {
            MiningStateData::Disabled(t) => Self::Disabled(*t),
            MiningStateData::Init(t) => Self::Init(*t),
            MiningStateData::Paused(t, r) => Self::Paused(*t, r.clone()),
            MiningStateData::UnPaused(t) => Self::UnPaused(*t),
            MiningStateData::AwaitBlockProposal(t) => Self::AwaitBlockProposal(*t),
            MiningStateData::AwaitBlock(t, p) => Self::AwaitBlock(*t, BlockSummary::from_block(p)),
            MiningStateData::Composing(t) => Self::Composing(*t),
            MiningStateData::Guessing(t, b) => Self::Guessing(*t, BlockSummary::from_work_info(b)),
            MiningStateData::NewTipBlock(t) => Self::NewTipBlock(*t),
            MiningStateData::ComposeError(t) => Self::ComposeError(*t),
            MiningStateData::Shutdown(t) => Self::Shutdown(*t),
        }
    }

    /// The state of this status.
    pub fn state(&self) -> (r: MiningState)
        ensures
            r == report_state(self@),
    {
        match *self {
            MiningStatus::Disabled(_) => MiningState::Disabled,
            MiningStatus::Init(_) => MiningState::Init,
            MiningStatus::Paused(..) => MiningState::Paused,
            MiningStatus::UnPaused(_) => MiningState::UnPaused,
            MiningStatus::AwaitBlockProposal(_) => MiningState::AwaitBlockProposal,
            MiningStatus::AwaitBlock(..) => MiningState::AwaitBlock,
            MiningStatus::Composing(_) => MiningState::Composing,
            MiningStatus::Guessing(..) => MiningState::Guessing,
            MiningStatus::NewTipBlock(_) => MiningState::NewTipBlock,
            MiningStatus::ComposeError(_) => MiningState::ComposeError,
            MiningStatus::Shutdown(_) => MiningState::Shutdown,
        }
    }

    /// The time this status was entered.
    pub fn since(&self) -> (r: u128)
        ensures
            r == report_since(self@),
    {
        match *self {
            Self::Disabled(t) => t,
            Self::Init(t) => t,
            Self::Paused(t, _) => t,
            Self::UnPaused(t) => t,
            Self::AwaitBlockProposal(t) => t,
            Self::AwaitBlock(t, _) => t,
            Self::Composing(t) => t,
            Self::Guessing(t, _) => t,
            Self::NewTipBlock(t) => t,
            Self::ComposeError(t) => t,
            Self::Shutdown(t) => t,
        }
    }

    /// The text shown for this status when the clock reads `now`.
    pub fn text_at(&self, now: u128) -> (r: String)
        ensures
            r@ == report_text(self@, now),
    {
        let since = self.since();
        let elapsed_text = human_duration_secs(elapsed(since, now));
        self.text_with_elapsed(elapsed_text.as_str())
    }

    /// The text shown for this status, given the rendering of the time
    /// elapsed since it was entered.
    pub fn text_with_elapsed(&self, elapsed_text: &str) -> (r: String)
        ensures
            r@ == report_text_with(self@, elapsed_text@),
    {
        let mut out = String::new();
        proof {
            reveal_strlit("paused for ");
            reveal_strlit("  (");
            reveal_strlit(", ");
            reveal_strlit(")");
            reveal_strlit(" for ");
            reveal_strlit(" ");
            reveal_strlit("/");
            reveal_strlit("; total guesser reward: ");
        }
        match self {
            MiningStatus::Disabled(_) => {
                push_str(&mut out, MiningState::Disabled.name());
            },
            MiningStatus::Paused(_, reasons) => {
                let mut descriptions: Vec<&str> = Vec::new();
                let mut i: usize = 0;
                while i < reasons.len()
                    invariant
                        i <= reasons.len(),
                        descriptions@.len() == i,
                        forall|k: int| 0 <= k < i ==> (#[trigger] descriptions@[k])@ == reason_description(reasons@[k]),
                    decreases reasons.len() - i,
                {
                    descriptions.push(reasons[i].description());
                    i = i + 1;
                }
                proof {
                    assert(descriptions@.map_values(|p: &str| p@) =~= reason_descriptions(reasons@));
                }
                push_str(&mut out, "paused for ");
                push_str(&mut out, elapsed_text);
                push_str(&mut out, "  (");
                let joined = join_strs(&descriptions, ", ");
                push_str(&mut out, joined.as_str());
                push_str(&mut out, ")");
            },
            _ => {
                push_str(&mut out, self.state().name());
                push_str(&mut out, " for ");
                push_str(&mut out, elapsed_text);
            },
        }
        if let MiningStatus::Guessing(_, info) = self {
            push_str(&mut out, " ");
            push_str(&mut out, decimal_string(info.num_inputs as u128).as_str());
            push_str(&mut out, "/");
            push_str(&mut out, decimal_string(info.num_outputs as u128).as_str());
            push_str(&mut out, "; total guesser reward: ");
            push_str(&mut out, signed_decimal_string(info.total_guesser_fee.0).as_str());
        }
        proof {
            assert(out@ =~= report_text_with(self@, elapsed_text@));
        }
        out
    }

    /// The text shown for this status now.
    pub fn to_display_string(&self) -> (r: String)
        ensures
            exists|now: u128| r@ == report_text(self@, now),
    {
        let now = now_nanos();
        self.text_at(now)
    }
}

impl MiningState {
    /// The state of a reported status.
    pub fn from_status(s: &MiningStatus) -> (r: MiningState)
        ensures
            r == report_state(s@),
    {
        s.state()
    }
}

/// The states from which a pause moves a mining machine to Paused: those of
/// the happy path, and Paused itself.
pub open spec fn pausable(s: MiningState) -> bool {
    ||| s == MiningState::Init
    ||| s == MiningState::AwaitBlockProposal
    ||| s == MiningState::Composing
    ||| s == MiningState::AwaitBlock
    ||| s == MiningState::Guessing
    ||| s == MiningState::NewTipBlock
    ||| s == MiningState::Paused
}

/// The machine's configuration and the pause flags for reasons other than
/// `r` are those of `m`.
pub open spec fn same_but_flag(m1: MachineView, m: MachineView, r: MiningPausedReason) -> bool {
    &&& m1.role_compose == m.role_compose
    &&& m1.role_guess == m.role_guess
    &&& m1.strict_state_transitions == m.strict_state_transitions
    &&& forall|r2: MiningPausedReason| r2 != r ==> pause_flag(m1, r2) == pause_flag(m, r2)
}

/// Pausing for a reason sets that reason's flag, and unpausing for it clears
/// it; neither touches the other flags or the configuration, and neither
/// fails.
pub proof fn lemma_pause_flags(m: MachineView, r: MiningPausedReason, t: u128, t1: u128, t2: u128)
    ensures
        pause_flag(pause_by(m, r, t), r),
        same_but_flag(pause_by(m, r, t), m, r),
        !pause_flag(unpause_by(m, r, t1, t2), r),
        same_but_flag(unpause_by(m, r, t1, t2), m, r),
{
}

/// A pause moves a mining machine to Paused from the states of the happy path
/// and from Paused, and leaves every other state, and every state of a
/// machine that does not mine, as it is. This holds while the machine is
/// paused for at most one reason; one paused for more may only shut down.
pub proof fn lemma_pause_changes_only_certain_states(m: MachineView, r: MiningPausedReason, t: u128)
    requires
        paused_count(m) <= 1,
    ensures
        machine_state(pause_by(m, r, t)) == (if mining_enabled(m) && pausable(machine_state(m)) {
            MiningState::Paused
        } else {
            machine_state(m)
        }),
{
    let p = StatusView::Paused(t, seq![r]);
    if allowed(m, p) {
        if m.status is Paused {
        } else {
            assert(p != m.status);
            assert(transitions(machine_state(m)).contains(MiningState::Paused));
        }
    } else if mining_enabled(m) && pausable(machine_state(m)) && machine_state(m) != MiningState::Paused {
        let ts = transitions(machine_state(m));
        assert(ts.contains(MiningState::Paused)) by {
            if machine_state(m) == MiningState::Init {
                assert(ts[2] == MiningState::Paused);
            } else if machine_state(m) == MiningState::AwaitBlockProposal {
                assert(ts[2] == MiningState::Paused);
            } else if machine_state(m) == MiningState::Composing {
                assert(ts[2] == MiningState::Paused);
            } else if machine_state(m) == MiningState::AwaitBlock {
                assert(ts[1] == MiningState::Paused);
            } else if machine_state(m) == MiningState::Guessing {
                assert(ts[1] == MiningState::Paused);
            } else {
                assert(ts[1] == MiningState::Paused);
            }
        }
    }
}

/// From a mining machine paused for no reason, a pause followed by an unpause
/// (for any reasons) ends in Init from the states of the happy path, from
/// Paused and from UnPaused, and leaves every other state as it is; a machine
/// that does not mine keeps its state.
pub proof fn lemma_unpause_changes_only_certain_states(
    m: MachineView,
    r: MiningPausedReason,
    r2: MiningPausedReason,
    t: u128,
    t1: u128,
    t2: u128,
)
    requires
        paused_count(m) == 0,
    ensures
        machine_state(unpause_by(pause_by(m, r, t), r2, t1, t2)) == (if mining_enabled(m) && (pausable(
            machine_state(m),
        ) || machine_state(m) == MiningState::UnPaused) {
            MiningState::Init
        } else {
            machine_state(m)
        }),
{
    lemma_pause_changes_only_certain_states(m, r, t);
    let p = pause_by(m, r, t);
    assert(paused_count(p) <= 1);
    let u = step(p, StatusView::UnPaused(t1)).0;
    if mining_enabled(m) {
        let sp = machine_state(p);
        if sp == MiningState::Paused {
            assert(transitions(MiningState::Paused)[0] == MiningState::UnPaused);
        }
        assert(machine_state(u) == MiningState::UnPaused || machine_state(u) == sp);
        if machine_state(u) == MiningState::UnPaused {
            assert(transitions(MiningState::UnPaused)[0] == MiningState::Init);
        }
    }
}

/// A merged pause keeps the reasons of a paused status free of repeats: the
/// time of the original pause stays, and the new reason is added at the end
/// unless it is already there.
pub proof fn lemma_pause_keeps_reasons_unique(m: MachineView, r: MiningPausedReason, t: u128)
    requires
        m.status matches StatusView::Paused(_, rs) ==> rs.no_duplicates(),
    ensures
        pause_by(m, r, t).status matches StatusView::Paused(_, rs) ==> rs.no_duplicates(),
        allowed(m, StatusView::Paused(t, seq![r])) ==> pause_by(m, r, t).status == (match m.status {
            StatusView::Paused(t0, rs) => StatusView::Paused(t0, if rs.contains(r) { rs } else { rs.push(r) }),
            _ => StatusView::Paused(t, seq![r]),
        }),
{
    if let StatusView::Paused(t0, rs) = m.status {
        lemma_seq_unique_push(rs, r);
        lemma_seq_unique(rs.push(r));
    }
}

/// The statuses of the mining happy path, from Init back to Init, entered at
/// the clock readings `ts`, awaiting block `b1` and guessing on `b2`.
pub open spec fn happy_path_statuses(ts: Seq<u128>, b1: Block, b2: Block) -> Seq<StatusView> {
    seq![
        StatusView::Init(ts[0]),
        StatusView::AwaitBlockProposal(ts[1]),
        StatusView::Composing(ts[2]),
        StatusView::AwaitBlock(ts[3], b1),
        StatusView::Guessing(ts[4], b2),
        StatusView::NewTipBlock(ts[5]),
        StatusView::Init(ts[6]),
    ]
}

/// Moving through the first `k + 1` statuses is moving through the first `k`,
/// then to the next one unless that failed.
pub proof fn lemma_states_prefix_step(m: MachineView, ss: Seq<StatusView>, tss: Seq<Seq<u128>>, k: int)
    requires
        0 <= k < ss.len(),
        ss.len() == tss.len(),
    ensures
        states_spec(m, ss.take(k + 1), tss.take(k + 1)) == (if states_spec(m, ss.take(k), tss.take(k)).1 is Err {
            states_spec(m, ss.take(k), tss.take(k))
        } else {
            advance_with_spec(states_spec(m, ss.take(k), tss.take(k)).0, ss[k], tss[k])
        }),
{
    assert(ss.take(k + 1) =~= ss.take(k).push(ss[k]));
    assert(tss.take(k + 1) =~= tss.take(k).push(tss[k]));
    lemma_states_step(m, ss.take(k), tss.take(k), ss[k], tss[k]);
}

/// Every machine in state Init and paused for no reason can walk the mining
/// happy path from Init back to Init: it fails only when the machine does not
/// mine and is strict, and a mining machine ends in Init.
pub proof fn lemma_happy_path(m: MachineView, ts: Seq<u128>, b1: Block, b2: Block, tss: Seq<Seq<u128>>)
    requires
        machine_state(m) == MiningState::Init,
        paused_count(m) == 0,
        ts.len() == 7,
        tss.len() == 7,
    ensures
        states_spec(m, happy_path_statuses(ts, b1, b2), tss).1 is Err <==> (!mining_enabled(m)
            && m.strict_state_transitions),
        mining_enabled(m) ==> machine_state(states_spec(m, happy_path_statuses(ts, b1, b2), tss).0)
            == MiningState::Init,
{
    let ss = happy_path_statuses(ts, b1, b2);
    assert(ss.take(0) =~= Seq::<StatusView>::empty());
    assert(tss.take(0) =~= Seq::<Seq<u128>>::empty());
    assert(transitions(MiningState::Init)[0] == MiningState::AwaitBlockProposal);
    assert(transitions(MiningState::AwaitBlockProposal)[0] == MiningState::Composing);
    assert(transitions(MiningState::Composing)[0] == MiningState::AwaitBlock);
    assert(transitions(MiningState::AwaitBlock)[0] == MiningState::Guessing);
    assert(transitions(MiningState::Guessing)[0] == MiningState::NewTipBlock);
    assert(transitions(MiningState::NewTipBlock)[0] == MiningState::Init);
    lemma_states_prefix_step(m, ss, tss, 0);
    lemma_states_prefix_step(m, ss, tss, 1);
    lemma_states_prefix_step(m, ss, tss, 2);
    lemma_states_prefix_step(m, ss, tss, 3);
    lemma_states_prefix_step(m, ss, tss, 4);
    lemma_states_prefix_step(m, ss, tss, 5);
    lemma_states_prefix_step(m, ss, tss, 6);
    assert(ss.take(7) =~= ss);
    assert(tss.take(7) =~= tss);
}

/// The events that walk the mining happy path by advancing: advance, a block
/// proposal `b`, advance, advance.
pub open spec fn happy_path_events(b: ProposedBlock) -> Seq<MiningEvent> {
    seq![MiningEvent::Advance, MiningEvent::NewBlockProposal(b), MiningEvent::Advance, MiningEvent::Advance]
}

/// Handling the first `k + 1` events is handling the first `k`, then the
/// next one unless that failed.
pub proof fn lemma_events_prefix_step(m: MachineView, es: Seq<MiningEvent>, tss: Seq<Seq<u128>>, k: int)
    requires
        0 <= k < es.len(),
        es.len() == tss.len(),
    ensures
        events_spec(m, es.take(k + 1), tss.take(k + 1)) == (if events_spec(m, es.take(k), tss.take(k)).1 is Err {
            events_spec(m, es.take(k), tss.take(k))
        } else {
            handle_event_spec(events_spec(m, es.take(k), tss.take(k)).0, es[k], tss[k])
        }),
{
    assert(es.take(k + 1) =~= es.take(k).push(es[k]));
    assert(tss.take(k + 1) =~= tss.take(k).push(tss[k]));
    lemma_events_step(m, es.take(k), tss.take(k), es[k], tss[k]);
}

/// Every machine in state Init and paused for no reason can walk the mining
/// happy path by advancing: it fails only when the machine does not mine and
/// is strict. A composer ends back in Init; a guesser that does not compose
/// ends in NewTipBlock, one step short of it.
#[verifier::rlimit(80)]
pub proof fn lemma_happy_path_events(m: MachineView, b: ProposedBlock, tss: Seq<Seq<u128>>)
    requires
        machine_state(m) == MiningState::Init,
        paused_count(m) == 0,
        tss.len() == 4,
        forall|i: int| 0 <= i < 4 ==> #[trigger] tss[i].len() == 3,
    ensures
        events_spec(m, happy_path_events(b), tss).1 is Err <==> (!mining_enabled(m)
            && m.strict_state_transitions),
        m.role_compose ==> machine_state(events_spec(m, happy_path_events(b), tss).0) == MiningState::Init,
        m.role_guess && !m.role_compose ==> machine_state(events_spec(m, happy_path_events(b), tss).0)
            == MiningState::NewTipBlock,
{
    reveal_with_fuel(advance_spec, 4);
    let es = happy_path_events(b);
    assert(es.take(0) =~= Seq::<MiningEvent>::empty());
    assert(tss.take(0) =~= Seq::<Seq<u128>>::empty());
    assert(transitions(MiningState::Init)[0] == MiningState::AwaitBlockProposal);
    assert(transitions(MiningState::AwaitBlockProposal)[0] == MiningState::Composing);
    assert(transitions(MiningState::AwaitBlockProposal)[1] == MiningState::AwaitBlock);
    assert(transitions(MiningState::Composing)[0] == MiningState::AwaitBlock);
    assert(transitions(MiningState::AwaitBlock)[0] == MiningState::Guessing);
    assert(transitions(MiningState::Guessing)[0] == MiningState::NewTipBlock);
    assert(transitions(MiningState::NewTipBlock)[0] == MiningState::Init);
    lemma_events_prefix_step(m, es, tss, 0);
    lemma_events_prefix_step(m, es, tss, 1);
    lemma_events_prefix_step(m, es, tss, 2);
    lemma_events_prefix_step(m, es, tss, 3);
    assert(es.take(4) =~= es);
    assert(tss.take(4) =~= tss);
}

/// The transition table, state by state: Init may be followed by
/// AwaitBlockProposal, NewTipBlock, Paused or Shutdown; AwaitBlockProposal
/// by Composing, AwaitBlock, Paused, Shutdown or NewTipBlock; Composing by AwaitBlock,
/// ComposeError, Paused, Shutdown or NewTipBlock; AwaitBlock by Guessing,
/// Paused, Shutdown or NewTipBlock; Guessing by NewTipBlock, Paused or
/// Shutdown; NewTipBlock by Init, Paused or Shutdown; ComposeError by
/// Shutdown; Paused by UnPaused or Shutdown; UnPaused by Init or Shutdown;
/// Disabled and Shutdown by nothing.
pub proof fn lemma_transition_table(s: MiningState, t: MiningState)
    ensures
        transitions(s).contains(t) <==> match s {
            MiningState::Init => t == MiningState::AwaitBlockProposal || t == MiningState::NewTipBlock
                || t == MiningState::Paused || t == MiningState::Shutdown,
            MiningState::AwaitBlockProposal => t == MiningState::Composing || t == MiningState::AwaitBlock
                || t == MiningState::Paused || t == MiningState::Shutdown || t == MiningState::NewTipBlock,
            MiningState::Composing => t == MiningState::AwaitBlock || t == MiningState::ComposeError
                || t == MiningState::Paused || t == MiningState::Shutdown || t == MiningState::NewTipBlock,
            MiningState::AwaitBlock => t == MiningState::Guessing || t == MiningState::Paused
                || t == MiningState::Shutdown || t == MiningState::NewTipBlock,
            MiningState::Guessing => t == MiningState::NewTipBlock || t == MiningState::Paused
                || t == MiningState::Shutdown,
            MiningState::NewTipBlock => t == MiningState::Init || t == MiningState::Paused
                || t == MiningState::Shutdown,
            MiningState::ComposeError => t == MiningState::Shutdown,
            MiningState::Paused => t == MiningState::UnPaused || t == MiningState::Shutdown,
            MiningState::UnPaused => t == MiningState::Init || t == MiningState::Shutdown,
            MiningState::Disabled => false,
            MiningState::Shutdown => false,
        },
{
    let q = transitions(s);
    if exists|i: int| 0 <= i < q.len() && q[i] == t {
        let i = choose|i: int| 0 <= i < q.len() && q[i] == t;
        assert(q[i] == t);
    }
    assert(q.len() <= 5);
    if q.len() > 0 && q[0] == t { assert(q.contains(t)); }
    if q.len() > 1 && q[1] == t { assert(q.contains(t)); }
    if q.len() > 2 && q[2] == t { assert(q.contains(t)); }
    if q.len() > 3 && q[3] == t { assert(q.contains(t)); }
    if q.len() > 4 && q[4] == t { assert(q.contains(t)); }
}

/// A new tip block interrupts the happy path: a machine that composes or
/// guesses and is paused for at most one reason, in Init,
/// AwaitBlockProposal, Composing, AwaitBlock or Guessing, takes the
/// NewTipBlock status, on a NewTipBlock event or when moved to it, and
/// reports success, strict or not; nothing else about it changes.
pub proof fn lemma_new_tip_block_interrupts_happy_path(m: MachineView, ts: Seq<u128>)
    requires
        m.role_compose || m.role_guess,
        paused_count(m) <= 1,
        machine_state(m) == MiningState::Init || machine_state(m) == MiningState::AwaitBlockProposal
            || machine_state(m) == MiningState::Composing || machine_state(m) == MiningState::AwaitBlock
            || machine_state(m) == MiningState::Guessing,
    ensures
        handle_event_spec(m, MiningEvent::NewTipBlock, ts) == (
            MachineView { status: StatusView::NewTipBlock(ts[0]), ..m },
            Ok::<(), InvalidStateTransition>(()),
        ),
        advance_with_spec(m, StatusView::NewTipBlock(ts[0]), ts) == (
            MachineView { status: StatusView::NewTipBlock(ts[0]), ..m },
            Ok::<(), InvalidStateTransition>(()),
        ),
{
    lemma_transition_table(machine_state(m), MiningState::NewTipBlock);
}

/// How the machine answers a move to status `s`. Moving from Init to Init,
/// or to the very status the machine has, is always taken. Otherwise a
/// machine that neither composes nor guesses may only become Disabled, one
/// paused for more than one reason may only shut down, and any other follows
/// the transition table. A move that is taken replaces the status and
/// nothing else and succeeds; one that is refused leaves the machine as it
/// is, and fails, naming both states, exactly when the machine is strict.
pub proof fn lemma_step_rules(m: MachineView, s: StatusView)
    ensures
        ({
            let moves = if status_state(s) == MiningState::Init && machine_state(m) == MiningState::Init {
                true
            } else if s == m.status {
                true
            } else if !(m.role_compose || m.role_guess) {
                status_state(s) == MiningState::Disabled
            } else if paused_count(m) > 1 {
                status_state(s) == MiningState::Shutdown
            } else {
                transitions(machine_state(m)).contains(status_state(s))
            };
            &&& moves ==> step(m, s) == (MachineView { status: s, ..m }, Ok::<(), InvalidStateTransition>(()))
            &&& !moves && m.strict_state_transitions ==> step(m, s) == (
                m,
                Err::<(), InvalidStateTransition>(
                    InvalidStateTransition { old_state: machine_state(m), new_state: status_state(s) },
                ),
            )
            &&& !moves && !m.strict_state_transitions ==> step(m, s) == (m, Ok::<(), InvalidStateTransition>(()))
        }),
{
}

} // verus!
