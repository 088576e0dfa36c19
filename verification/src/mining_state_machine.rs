//! A finite-state machine for mining, driven by events.
//!
//! The machine responds to events and determines what the next state should
//! be. It then checks that it is allowed to move from the present state to the
//! next state. If the move is not allowed, the event is ignored, or an error is
//! returned, as the `strict_state_transitions` setting says.
//!
//! Pausing can occur for different reasons; the machine keeps a flag per
//! reason, pauses once for a reason until it is unpaused for it, and records
//! every reason in the paused status.
//!
//! States, statuses and pause reasons are those of [`crate::mining_status`].
use vstd::prelude::*;

use crate::mining_status::{
    Block, GuessingWorkInfo, InvalidStateTransition, happy_path_statuses, MachineView, MiningPausedReason, MiningState,
    MiningStateData, MiningStateMachineConfig, ProposedBlock, StatusView, contains_state,
    machine_state, merge_paused_status, merged_pause, mining_enabled, pause_flag, paused_count, status_since,
    status_state, status_views, with_pause_flag, with_status, pausable, same_but_flag,
};
use crate::seq_util::{lemma_seq_unique, lemma_seq_unique_push};

verus! {

/// The states that may follow a state. Unlike the table of
/// [`crate::mining_status::transitions`], AwaitBlockProposal may not be
/// followed by AwaitBlock directly.
pub open spec fn transitions(s: MiningState) -> Seq<MiningState> {
    match s {
        MiningState::Init => seq![
            MiningState::AwaitBlockProposal,
            MiningState::NewTipBlock,
            MiningState::Paused,
            MiningState::Shutdown,
        ],
        MiningState::AwaitBlockProposal => seq![
            MiningState::Composing,
            MiningState::Paused,
            MiningState::Shutdown,
            MiningState::NewTipBlock,
        ],
        MiningState::Composing => seq![
            MiningState::AwaitBlock,
            MiningState::ComposeError,
            MiningState::Paused,
            MiningState::Shutdown,
            MiningState::NewTipBlock,
        ],
        MiningState::AwaitBlock => seq![
            MiningState::Guessing,
            MiningState::Paused,
            MiningState::Shutdown,
            MiningState::NewTipBlock,
        ],
        MiningState::Guessing => seq![
            MiningState::NewTipBlock,
            MiningState::Paused,
            MiningState::Shutdown,
        ],
        MiningState::NewTipBlock => seq![
            MiningState::Init,
            MiningState::Paused,
            MiningState::Shutdown,
        ],
        MiningState::ComposeError => seq![MiningState::Shutdown],
        MiningState::Paused => seq![MiningState::UnPaused, MiningState::Shutdown],
        MiningState::UnPaused => seq![MiningState::Init, MiningState::Shutdown],
        MiningState::Disabled => seq![],
        MiningState::Shutdown => seq![],
    }
}

/// The states that may follow a state.
pub fn allowed_transitions(s: MiningState) -> (r: Vec<MiningState>)
    ensures
        r@ == transitions(s),
{
    let r = match s {
        MiningState::Init => vec![
            MiningState::AwaitBlockProposal,
            MiningState::NewTipBlock,
            MiningState::Paused,
            MiningState::Shutdown,
        ],
        MiningState::AwaitBlockProposal => vec![
            MiningState::Composing,
            MiningState::Paused,
            MiningState::Shutdown,
            MiningState::NewTipBlock,
        ],
        MiningState::Composing => vec![
            MiningState::AwaitBlock,
            MiningState::ComposeError,
            MiningState::Paused,
            MiningState::Shutdown,
            MiningState::NewTipBlock,
        ],
        MiningState::AwaitBlock => vec![
            MiningState::Guessing,
            MiningState::Paused,
            MiningState::Shutdown,
            MiningState::NewTipBlock,
        ],
        MiningState::Guessing => vec![
            MiningState::NewTipBlock,
            MiningState::Paused,
            MiningState::Shutdown,
        ],
        MiningState::NewTipBlock => vec![
            MiningState::Init,
            MiningState::Paused,
            MiningState::Shutdown,
        ],
        MiningState::ComposeError => vec![MiningState::Shutdown],
        MiningState::Paused => vec![MiningState::UnPaused, MiningState::Shutdown],
        MiningState::UnPaused => vec![MiningState::Init, MiningState::Shutdown],
        MiningState::Disabled => vec![],
        MiningState::Shutdown => vec![],
    };
    proof {
        assert(r@ =~= transitions(s));
    }
    r
}

/// Whether the machine may move to status `s`:
///   1. a status of the present state is allowed only for Init;
///   2. a status equal to the present one is allowed;
///   3. a machine that does not mine may only be disabled;
///   4. a machine paused for more than one reason may only shut down;
///   5. otherwise the transition table decides.
pub open spec fn allowed(m: MachineView, s: StatusView) -> bool {
    let state = status_state(s);
    if state == machine_state(m) {
        state == MiningState::Init
    } else if s == m.status {
        true
    } else if !mining_enabled(m) {
        state == MiningState::Disabled
    } else if paused_count(m) > 1 {
        state == MiningState::Shutdown
    } else {
        transitions(machine_state(m)).contains(state)
    }
}

/// Moving to a status that is not a pause: the machine takes it when it is
/// allowed; otherwise a strict machine returns an error and any other machine
/// stays as it is.
pub open spec fn step(m: MachineView, s: StatusView) -> (MachineView, Result<(), InvalidStateTransition>) {
    if allowed(m, s) {
        (with_status(m, s), Ok(()))
    } else if m.strict_state_transitions {
        (m, Err(InvalidStateTransition { old_state: machine_state(m), new_state: status_state(s) }))
    } else {
        (m, Ok(()))
    }
}

/// Pausing for reason `r`, the clock reading `t`: nothing happens when the
/// machine is already paused for `r`; otherwise the pause status is merged in
/// when allowed, and the reason's flag is set either way.
pub open spec fn pause_by(m: MachineView, r: MiningPausedReason, t: u128) -> MachineView {
    if pause_flag(m, r) {
        m
    } else {
        let m1 = if allowed(m, StatusView::Paused(t, seq![r])) {
            with_status(m, merged_pause(m, r, t))
        } else {
            m
        };
        with_pause_flag(m1, r, true)
    }
}

/// Un-pausing for reason `r`, the clock reading `t1` then `t2`: nothing
/// happens unless the machine is paused for `r`; otherwise it tries to move to
/// UnPaused, then to Init, and clears the reason's flag.
pub open spec fn unpause_by(m: MachineView, r: MiningPausedReason, t1: u128, t2: u128) -> MachineView {
    if !pause_flag(m, r) {
        m
    } else {
        let m1 = step(m, StatusView::UnPaused(t1)).0;
        let m2 = step(m1, StatusView::Init(t2)).0;
        with_pause_flag(m2, r, false)
    }
}

/// Pausing for each of `rs` in turn, the clock reading `ts[i]` for `rs[i]`.
pub open spec fn pause_all(m: MachineView, rs: Seq<MiningPausedReason>, ts: Seq<u128>) -> MachineView
    decreases rs.len(),
{
    if rs.len() == 0 {
        m
    } else {
        pause_by(pause_all(m, rs.drop_last(), ts), rs.last(), ts[rs.len() - 1])
    }
}

/// `pause_all` reads only the first `rs.len()` clock readings.
pub proof fn lemma_pause_all_prefix(m: MachineView, rs: Seq<MiningPausedReason>, ts1: Seq<u128>, ts2: Seq<u128>)
    requires
        forall|i: int| 0 <= i < rs.len() ==> ts1[i] == ts2[i],
    ensures
        pause_all(m, rs, ts1) == pause_all(m, rs, ts2),
    decreases rs.len(),
{
    if rs.len() > 0 {
        lemma_pause_all_prefix(m, rs.drop_last(), ts1, ts2);
    }
}

/// Moving to status `s` (see `MiningStateMachine::advance_with`): a pause
/// status pauses for each of its reasons, the clock reading `ts[i]` for the
/// i-th; any other status is a `step`.
pub open spec fn advance_with_spec(m: MachineView, s: StatusView, ts: Seq<u128>) -> (MachineView, Result<(), InvalidStateTransition>) {
    match s {
        StatusView::Paused(_, rs) => (pause_all(m, rs, ts), Ok(())),
        _ => step(m, s),
    }
}

/// Events that the mining state machine handles.
#[derive(Debug)]
pub enum MiningEvent {
    Init,
    AwaitBlockProposal,
    StartComposing,
    StartGuessing,
    PauseByRpc,
    UnPauseByRpc,
    PauseBySyncBlocks,
    UnPauseBySyncBlocks,
    PauseByNeedConnection,
    UnPauseByNeedConnection,
    NewBlockProposal(ProposedBlock),
    NewTipBlock,
    ComposeError,
    Shutdown,
}

impl Clone for MiningEvent {
    fn clone(&self) -> (r: Self)
        ensures
            r == *self,
    {
        match self {
            MiningEvent::Init => MiningEvent::Init,
            MiningEvent::AwaitBlockProposal => MiningEvent::AwaitBlockProposal,
            MiningEvent::StartComposing => MiningEvent::StartComposing,
            MiningEvent::StartGuessing => MiningEvent::StartGuessing,
            MiningEvent::PauseByRpc => MiningEvent::PauseByRpc,
            MiningEvent::UnPauseByRpc => MiningEvent::UnPauseByRpc,
            MiningEvent::PauseBySyncBlocks => MiningEvent::PauseBySyncBlocks,
            MiningEvent::UnPauseBySyncBlocks => MiningEvent::UnPauseBySyncBlocks,
            MiningEvent::PauseByNeedConnection => MiningEvent::PauseByNeedConnection,
            MiningEvent::UnPauseByNeedConnection => MiningEvent::UnPauseByNeedConnection,
            MiningEvent::NewBlockProposal(b) => MiningEvent::NewBlockProposal(Box::new(**b)),
            MiningEvent::NewTipBlock => MiningEvent::NewTipBlock,
            MiningEvent::ComposeError => MiningEvent::ComposeError,
            MiningEvent::Shutdown => MiningEvent::Shutdown,
        }
    }
}

/// Handling an event (see `MiningStateMachine::handle_event`), the clock
/// reading `ts[0]`, `ts[1]`, ... in turn.
pub open spec fn handle_event_spec(m: MachineView, e: MiningEvent, ts: Seq<u128>) -> (MachineView, Result<(), InvalidStateTransition>) {
    match e {
        MiningEvent::Init => step(m, StatusView::Init(ts[0])),
        MiningEvent::AwaitBlockProposal => step(m, StatusView::AwaitBlockProposal(ts[0])),
        MiningEvent::StartComposing => step(m, StatusView::Composing(ts[0])),
        MiningEvent::StartGuessing => match m.status {
            StatusView::AwaitBlock(_, b) => step(m, StatusView::Guessing(ts[0], b)),
            _ => (m, Ok(())),
        },
        MiningEvent::PauseByRpc => (pause_by(m, MiningPausedReason::Rpc, ts[0]), Ok(())),
        MiningEvent::UnPauseByRpc => (unpause_by(m, MiningPausedReason::Rpc, ts[0], ts[1]), Ok(())),
        MiningEvent::PauseBySyncBlocks => (pause_by(m, MiningPausedReason::SyncBlocks, ts[0]), Ok(())),
        MiningEvent::UnPauseBySyncBlocks => (
            unpause_by(m, MiningPausedReason::SyncBlocks, ts[0], ts[1]),
            Ok(()),
        ),
        MiningEvent::PauseByNeedConnection => (
            pause_by(m, MiningPausedReason::NeedConnection, ts[0]),
            Ok(()),
        ),
        MiningEvent::UnPauseByNeedConnection => (
            unpause_by(m, MiningPausedReason::NeedConnection, ts[0], ts[1]),
            Ok(()),
        ),
        MiningEvent::NewBlockProposal(p) => if machine_state(m) == MiningState::Guessing {
            (with_status(m, StatusView::Guessing(status_since(m.status), *p)), Ok(()))
        } else {
            let (m1, r1) = if m.role_guess && machine_state(m) == MiningState::AwaitBlockProposal {
                step(m, StatusView::Composing(ts[0]))
            } else {
                (m, Ok(()))
            };
            if r1 is Err {
                (m1, r1)
            } else {
                step(m1, StatusView::AwaitBlock(ts[1], *p))
            }
        },
        MiningEvent::NewTipBlock => step(m, StatusView::NewTipBlock(ts[0])),
        MiningEvent::ComposeError => step(m, StatusView::ComposeError(ts[0])),
        MiningEvent::Shutdown => step(m, StatusView::Shutdown(ts[0])),
    }
}

/// Moving to each of `ss` in turn with `advance_with`, stopping at the first
/// error; `tss[i]` are the clock readings while moving to `ss[i]`.
pub open spec fn states_spec(m: MachineView, ss: Seq<StatusView>, tss: Seq<Seq<u128>>) -> (MachineView, Result<(), InvalidStateTransition>)
    decreases ss.len(),
{
    if ss.len() == 0 {
        (m, Ok(()))
    } else {
        let (m1, r1) = states_spec(m, ss.drop_last(), tss.drop_last());
        if r1 is Err {
            (m1, r1)
        } else {
            advance_with_spec(m1, ss.last(), tss.last())
        }
    }
}

/// Handling each of `es` in turn, stopping at the first error; `tss[i]` are
/// the clock readings while handling `es[i]`.
pub open spec fn events_spec(m: MachineView, es: Seq<MiningEvent>, tss: Seq<Seq<u128>>) -> (MachineView, Result<(), InvalidStateTransition>)
    decreases es.len(),
{
    if es.len() == 0 {
        (m, Ok(()))
    } else {
        let (m1, r1) = events_spec(m, es.drop_last(), tss.drop_last());
        if r1 is Err {
            (m1, r1)
        } else {
            handle_event_spec(m1, es.last(), tss.last())
        }
    }
}

/// Once moving through a prefix of the statuses fails, the rest is not tried.
pub proof fn lemma_states_stop_at_error(m: MachineView, ss: Seq<StatusView>, tss: Seq<Seq<u128>>, k: int)
    requires
        0 <= k <= ss.len(),
        tss.len() == ss.len(),
        states_spec(m, ss.take(k), tss.take(k)).1 is Err,
    ensures
        states_spec(m, ss, tss) == states_spec(m, ss.take(k), tss.take(k)),
    decreases ss.len() - k,
{
    if k < ss.len() {
        assert(ss.drop_last().take(k) =~= ss.take(k));
        assert(tss.drop_last().take(k) =~= tss.take(k));
        lemma_states_stop_at_error(m, ss.drop_last(), tss.drop_last(), k);
    } else {
        assert(ss.take(k) =~= ss);
        assert(tss.take(k) =~= tss);
    }
}

/// One more status after a prefix.
pub proof fn lemma_states_step(m: MachineView, ss: Seq<StatusView>, tss: Seq<Seq<u128>>, x: StatusView, ts: Seq<u128>)
    ensures
        states_spec(m, ss.push(x), tss.push(ts)) == (if states_spec(m, ss, tss).1 is Err {
            states_spec(m, ss, tss)
        } else {
            advance_with_spec(states_spec(m, ss, tss).0, x, ts)
        }),
{
    assert(ss.push(x).drop_last() =~= ss);
    assert(tss.push(ts).drop_last() =~= tss);
}

/// Once handling a prefix of the events fails, the rest is not handled.
pub proof fn lemma_events_stop_at_error(m: MachineView, es: Seq<MiningEvent>, tss: Seq<Seq<u128>>, k: int)
    requires
        0 <= k <= es.len(),
        tss.len() == es.len(),
        events_spec(m, es.take(k), tss.take(k)).1 is Err,
    ensures
        events_spec(m, es, tss) == events_spec(m, es.take(k), tss.take(k)),
    decreases es.len() - k,
{
    if k < es.len() {
        assert(es.drop_last().take(k) =~= es.take(k));
        assert(tss.drop_last().take(k) =~= tss.take(k));
        lemma_events_stop_at_error(m, es.drop_last(), tss.drop_last(), k);
    } else {
        assert(es.take(k) =~= es);
        assert(tss.take(k) =~= tss);
    }
}

/// One more event after a prefix.
pub proof fn lemma_events_step(m: MachineView, es: Seq<MiningEvent>, tss: Seq<Seq<u128>>, x: MiningEvent, ts: Seq<u128>)
    ensures
        events_spec(m, es.push(x), tss.push(ts)) == (if events_spec(m, es, tss).1 is Err {
            events_spec(m, es, tss)
        } else {
            handle_event_spec(events_spec(m, es, tss).0, x, ts)
        }),
{
    assert(es.push(x).drop_last() =~= es);
    assert(tss.push(ts).drop_last() =~= tss);
}

/// A state machine for mining.
#[derive(Debug)]
pub struct MiningStateMachine {
    state_data: MiningStateData,
    paused_while_syncing: bool,
    paused_by_rpc: bool,
    paused_need_connection: bool,
    config: MiningStateMachineConfig,
}

impl View for MiningStateMachine {
    type V = MachineView;

    closed spec fn view(&self) -> MachineView {
        MachineView {
            status: self.state_data@,
            paused_while_syncing: self.paused_while_syncing,
            paused_by_rpc: self.paused_by_rpc,
            paused_need_connection: self.paused_need_connection,
            role_compose: self.config.role_compose,
            role_guess: self.config.role_guess,
            strict_state_transitions: self.config.strict_state_transitions,
        }
    }
}

impl Clone for MiningStateMachine {
    fn clone(&self) -> (r: Self)
        ensures
            r@ == self@,
    {
        MiningStateMachine {
            state_data: self.state_data.clone(),
            paused_while_syncing: self.paused_while_syncing,
            paused_by_rpc: self.paused_by_rpc,
            paused_need_connection: self.paused_need_connection,
            config: self.config,
        }
    }
}

impl MiningStateMachine {
    /// A machine in state Init with no pause flag set.
    pub fn new(config: MiningStateMachineConfig) -> (r: Self)
        ensures
            r@ == (MachineView {
                status: StatusView::Init(status_since(r@.status)),
                paused_while_syncing: false,
                paused_by_rpc: false,
                paused_need_connection: false,
                role_compose: config.role_compose,
                role_guess: config.role_guess,
                strict_state_transitions: config.strict_state_transitions,
            }),
    {
        Self {
            config,
            state_data: MiningStateData::init(),
            paused_while_syncing: false,
            paused_by_rpc: false,
            paused_need_connection: false,
        }
    }

    /// The machine's configuration.
    pub fn config(&self) -> (r: &MiningStateMachineConfig)
        ensures
            r.role_compose == self@.role_compose,
            r.role_guess == self@.role_guess,
            r.strict_state_transitions == self@.strict_state_transitions,
    {
        &self.config
    }

    /// The present status.
    pub fn state_data(&self) -> (r: &MiningStateData)
        ensures
            r@ == self@.status,
    {
        &self.state_data
    }

    /// Puts the machine in status `status` whatever the transition rules say.
    pub fn force_state_data(&mut self, status: MiningStateData)
        ensures
            final(self)@ == with_status(old(self)@, status@),
    {
        self.state_data = status;
    }

    /// Whether the machine is paused while syncing blocks.
    pub fn paused_while_syncing(&self) -> (r: bool)
        ensures
            r == self@.paused_while_syncing,
    {
        self.paused_while_syncing
    }

    /// Whether the machine is paused by the user.
    pub fn paused_by_rpc(&self) -> (r: bool)
        ensures
            r == self@.paused_by_rpc,
    {
        self.paused_by_rpc
    }

    /// Whether the machine is paused for want of connections.
    pub fn paused_need_connection(&self) -> (r: bool)
        ensures
            r == self@.paused_need_connection,
    {
        self.paused_need_connection
    }

    /// How many pause flags are set.
    pub fn paused_count(&self) -> (r: u8)
        ensures
            r == paused_count(self@),
    {
        (if self.paused_by_rpc { 1u8 } else { 0u8 }) + (if self.paused_while_syncing { 1u8 } else { 0u8 })
            + (if self.paused_need_connection { 1u8 } else { 0u8 })
    }

    /// Whether the machine composes or guesses.
    pub fn mining_enabled(&self) -> (r: bool)
        ensures
            r == mining_enabled(self@),
    {
        self.config.role_compose || self.config.role_guess
    }

    pub fn can_start_guessing(&self) -> (r: bool)
        ensures
            r == (self@.role_guess && machine_state(self@) == MiningState::AwaitBlock),
    {
        self.config.role_guess && self.state_data.state() == MiningState::AwaitBlock
    }

    pub fn is_guessing(&self) -> (r: bool)
        ensures
            r == (self@.role_guess && machine_state(self@) == MiningState::Guessing),
    {
        self.config.role_guess && self.state_data.state() == MiningState::Guessing
    }

    pub fn can_start_composing(&self) -> (r: bool)
        ensures
            r == (self@.role_compose && machine_state(self@) == MiningState::AwaitBlockProposal),
    {
        self.config.role_compose && self.state_data.state() == MiningState::AwaitBlockProposal
    }

    pub fn is_composing(&self) -> (r: bool)
        ensures
            r == (self@.role_compose && machine_state(self@) == MiningState::Composing),
    {
        self.config().role_compose && self.state_data.state() == MiningState::Composing
    }

    /// Whether the machine may move to `status` (see [`allowed`]).
    pub fn allowed(&self, status: &MiningStateData) -> (r: bool)
        ensures
            r == allowed(self@, status@),
    {
        let state = status.state();
        if state == self.state_data.state() {
            state == MiningState::Init
        } else if status.same_as(&self.state_data) {
            true
        } else if !self.mining_enabled() {
            state == MiningState::Disabled
        } else if self.paused_count() > 1 {
            state == MiningState::Shutdown
        } else {
            let allowed_states = allowed_transitions(self.state_data.state());
            contains_state(&allowed_states, state)
        }
    }

    fn ensure_allowed(&self, new_status: &MiningStateData) -> (r: Result<(), InvalidStateTransition>)
        ensures
            r == (if allowed(self@, new_status@) {
                Ok(())
            } else {
                Err(
                    InvalidStateTransition {
                        old_state: machine_state(self@),
                        new_state: status_state(new_status@),
                    },
                )
            }),
    {
        if self.allowed(new_status) {
            Ok(())
        } else {
            Err(InvalidStateTransition { old_state: self.state_data.state(), new_state: new_status.state() })
        }
    }

    fn set_new_status(&mut self, new_status: MiningStateData)
        ensures
            final(self)@ == with_status(old(self)@, new_status@),
    {
        self.state_data = new_status;
    }

    fn set_pause_flag(&mut self, reason: MiningPausedReason, v: bool)
        ensures
            final(self)@ == with_pause_flag(old(self)@, reason, v),
    {
        match reason {
            MiningPausedReason::Rpc => self.paused_by_rpc = v,
            MiningPausedReason::SyncBlocks => self.paused_while_syncing = v,
            MiningPausedReason::NeedConnection => self.paused_need_connection = v,
        }
    }

    fn pause_flag(&self, reason: MiningPausedReason) -> (r: bool)
        ensures
            r == pause_flag(self@, reason),
    {
        match reason {
            MiningPausedReason::Rpc => self.paused_by_rpc,
            MiningPausedReason::SyncBlocks => self.paused_while_syncing,
            MiningPausedReason::NeedConnection => self.paused_need_connection,
        }
    }

    /// Merges a pause for `reason` into the status: a paused status keeps its
    /// time and gains the reason (each reason once); any other status is
    /// replaced by `new_status`.
    fn merge_set_paused_status(&mut self, new_status: MiningStateData, reason: MiningPausedReason)
        requires
            new_status@ == StatusView::Paused(status_since(new_status@), seq![reason]),
        ensures
            final(self)@ == with_status(old(self)@, merged_pause(old(self)@, reason, status_since(new_status@))),
    {
        let merged = merge_paused_status(&self.state_data, new_status, reason);
        self.set_new_status(merged);
    }

    /// Pauses for `reason` unless already paused for it.
    fn pause_for(&mut self, reason: MiningPausedReason)
        ensures
            exists|t: u128| final(self)@ == pause_by(old(self)@, reason, t),
    {
        if !self.pause_flag(reason) {
            let new_status = MiningStateData::paused(reason);
            let ghost t = status_since(new_status@);
            if self.allowed(&new_status) {
                self.merge_set_paused_status(new_status, reason);
            }
            self.set_pause_flag(reason, true);
            assert(self@ == pause_by(old(self)@, reason, t));
        } else {
            assert(self@ == pause_by(old(self)@, reason, 0));
        }
    }

    /// Un-pauses for `reason` when paused for it.
    fn unpause_for(&mut self, reason: MiningPausedReason)
        ensures
            exists|t1: u128, t2: u128| final(self)@ == unpause_by(old(self)@, reason, t1, t2),
    {
        if self.pause_flag(reason) {
            let s1 = MiningStateData::unpaused();
            let ghost t1 = status_since(s1@);
            let _ = self.advance_with(s1);
            let s2 = MiningStateData::init();
            let ghost t2 = status_since(s2@);
            let _ = self.advance_with(s2);
            self.set_pause_flag(reason, false);
            assert(self@ == unpause_by(old(self)@, reason, t1, t2));
        } else {
            assert(self@ == unpause_by(old(self)@, reason, 0, 0));
        }
    }

    fn pause(&mut self, reason: MiningPausedReason)
        ensures
            exists|t: u128| final(self)@ == pause_by(old(self)@, reason, t),
    {
        match reason {
            MiningPausedReason::Rpc => self.pause_by_rpc(),
            MiningPausedReason::SyncBlocks => self.pause_by_sync_blocks(),
            MiningPausedReason::NeedConnection => self.pause_by_need_connection(),
        }
    }

    fn pause_by_need_connection(&mut self)
        ensures
            exists|t: u128| final(self)@ == pause_by(old(self)@, MiningPausedReason::NeedConnection, t),
    {
        self.pause_for(MiningPausedReason::NeedConnection)
    }

    fn unpause_by_need_connection(&mut self)
        ensures
            exists|t1: u128, t2: u128|
                final(self)@ == unpause_by(old(self)@, MiningPausedReason::NeedConnection, t1, t2),
    {
        self.unpause_for(MiningPausedReason::NeedConnection)
    }

    fn pause_by_rpc(&mut self)
        ensures
            exists|t: u128| final(self)@ == pause_by(old(self)@, MiningPausedReason::Rpc, t),
    {
        self.pause_for(MiningPausedReason::Rpc)
    }

    fn unpause_by_rpc(&mut self)
        ensures
            exists|t1: u128, t2: u128| final(self)@ == unpause_by(old(self)@, MiningPausedReason::Rpc, t1, t2),
    {
        self.unpause_for(MiningPausedReason::Rpc)
    }

    fn pause_by_sync_blocks(&mut self)
        ensures
            exists|t: u128| final(self)@ == pause_by(old(self)@, MiningPausedReason::SyncBlocks, t),
    {
        self.pause_for(MiningPausedReason::SyncBlocks)
    }

    fn unpause_by_sync_blocks(&mut self)
        ensures
            exists|t1: u128, t2: u128|
                final(self)@ == unpause_by(old(self)@, MiningPausedReason::SyncBlocks, t1, t2),
    {
        self.unpause_for(MiningPausedReason::SyncBlocks)
    }

    /// Moves to a status that is not a pause, as [`step`] says.
    fn step_to(&mut self, new_status: MiningStateData) -> (r: Result<(), InvalidStateTransition>)
        requires
            !(new_status@ is Paused),
        ensures
            (final(self)@, r) == step(old(self)@, new_status@),
    {
        if self.config.strict_state_transitions {
            let res = self.ensure_allowed(&new_status);
            match res {
                Ok(()) => {
                    self.set_new_status(new_status);
                    Ok(())
                },
                Err(e) => Err(e),
            }
        } else {
            if self.allowed(&new_status) {
                self.set_new_status(new_status);
            }
            Ok(())
        }
    }

    /// advances to input status if allowed.
    ///
    /// A pause status pauses for each of its reasons. For any other status,
    /// returns error if not allowed and in strict_transitions mode, and
    /// silently ignores input if not allowed and not in strict mode.
    pub fn advance_with(&mut self, new_status: MiningStateData) -> (r: Result<(), InvalidStateTransition>)
        requires
            match new_status@ {
                StatusView::Paused(_, rs) => rs.len() > 0,
                _ => true,
            },
        ensures
            exists|ts: Seq<u128>| (final(self)@, r) == advance_with_spec(old(self)@, new_status@, ts),
    {
        let ghost target = new_status@;
        match new_status {
            MiningStateData::Paused(_, reasons) => {
                let ghost m0 = self@;
                let ghost mut ts: Seq<u128> = Seq::empty();
                let mut i: usize = 0;
                while i < reasons.len()
                    invariant
                        i <= reasons.len(),
                        ts.len() == i,
                        self@ == pause_all(m0, reasons@.take(i as int), ts),
                    decreases reasons.len() - i,
                {
                    let ghost before = self@;
                    self.pause(reasons[i]);
                    let ghost t = choose|t: u128| self@ == pause_by(before, reasons@[i as int], t);
                    proof {
                        let ts2 = ts.push(t);
                        let rs2 = reasons@.take(i + 1);
                        assert(rs2.drop_last() =~= reasons@.take(i as int));
                        lemma_pause_all_prefix(m0, reasons@.take(i as int), ts, ts2);
                        ts = ts2;
                    }
                    i = i + 1;
                }
                proof {
                    assert(reasons@.take(reasons@.len() as int) =~= reasons@);
                    assert((self@, Ok::<(), InvalidStateTransition>(())) == advance_with_spec(m0, target, ts));
                }
                Ok(())
            },
            _ => {
                let r = self.step_to(new_status);
                assert((self@, r) == advance_with_spec(old(self)@, target, Seq::empty()));
                r
            },
        }
    }

    /// Moves to a status that is not a pause with `advance_with`.
    fn advance_plain(&mut self, new_status: MiningStateData) -> (r: Result<(), InvalidStateTransition>)
        requires
            !(new_status@ is Paused),
        ensures
            (final(self)@, r) == step(old(self)@, new_status@),
    {
        let ghost m0 = self@;
        let ghost s = new_status@;
        let r = self.advance_with(new_status);
        assert((self@, r) == step(m0, s));
        r
    }

    /// handles a single event.
    ///
    /// Pause and unpause events pause or unpause for their reason;
    /// StartGuessing moves from AwaitBlock to guessing its block and is
    /// ignored in any other state; a new block proposal while guessing
    /// replaces the block worked on and keeps the time guessing started,
    /// and otherwise moves to AwaitBlock (a guesser awaiting a proposal
    /// passes through Composing first); every other event moves to its
    /// status when that is allowed.
    pub fn handle_event(&mut self, event: MiningEvent) -> (r: Result<(), InvalidStateTransition>)
        ensures
            exists|ts: Seq<u128>| (final(self)@, r) == handle_event_spec(old(self)@, event, ts),
    {
        let ghost m0 = self@;
        let ghost ev = event;
        match event {
            MiningEvent::Init => {
                let s = MiningStateData::init();
                let ghost t = status_since(s@);
                let r = self.advance_plain(s);
                assert((self@, r) == handle_event_spec(m0, ev, seq![t]));
                r
            },
            MiningEvent::AwaitBlockProposal => {
                let s = MiningStateData::await_block_proposal();
                let ghost t = status_since(s@);
                let r = self.advance_plain(s);
                assert((self@, r) == handle_event_spec(m0, ev, seq![t]));
                r
            },
            MiningEvent::StartComposing => {
                let s = MiningStateData::composing();
                let ghost t = status_since(s@);
                let r = self.advance_plain(s);
                assert((self@, r) == handle_event_spec(m0, ev, seq![t]));
                r
            },
            MiningEvent::StartGuessing => {
                if self.state_data.state() == MiningState::AwaitBlock {
                    let s = match &self.state_data {
                        MiningStateData::AwaitBlock(_, proposed_block) => MiningStateData::guessing(
                            GuessingWorkInfo::new(Box::new(**proposed_block)),
                        ),
                        _ => {
                            assert(false);
                            return Ok(());
                        },
                    };
                    let ghost t = status_since(s@);
                    let r = self.advance_plain(s);
                    assert((self@, r) == handle_event_spec(m0, ev, seq![t]));
                    r
                } else {
                    // out-of-order event, ignore.
                    assert((self@, Ok::<(), InvalidStateTransition>(())) == handle_event_spec(m0, ev, Seq::empty()));
                    Ok(())
                }
            },
            MiningEvent::PauseByRpc => {
                self.pause_by_rpc();
                let ghost t = choose|t: u128| self@ == pause_by(m0, MiningPausedReason::Rpc, t);
                assert((self@, Ok::<(), InvalidStateTransition>(())) == handle_event_spec(m0, ev, seq![t]));
                Ok(())
            },
            MiningEvent::UnPauseByRpc => {
                self.unpause_by_rpc();
                let ghost (t1, t2) = choose|t1: u128, t2: u128| self@ == unpause_by(m0, MiningPausedReason::Rpc, t1, t2);
                assert((self@, Ok::<(), InvalidStateTransition>(())) == handle_event_spec(m0, ev, seq![t1, t2]));
                Ok(())
            },
            MiningEvent::PauseBySyncBlocks => {
                self.pause_by_sync_blocks();
                let ghost t = choose|t: u128| self@ == pause_by(m0, MiningPausedReason::SyncBlocks, t);
                assert((self@, Ok::<(), InvalidStateTransition>(())) == handle_event_spec(m0, ev, seq![t]));
                Ok(())
            },
            MiningEvent::UnPauseBySyncBlocks => {
                self.unpause_by_sync_blocks();
                let ghost (t1, t2) = choose|t1: u128, t2: u128|
                    self@ == unpause_by(m0, MiningPausedReason::SyncBlocks, t1, t2);
                assert((self@, Ok::<(), InvalidStateTransition>(())) == handle_event_spec(m0, ev, seq![t1, t2]));
                Ok(())
            },
            MiningEvent::PauseByNeedConnection => {
                self.pause_by_need_connection();
                let ghost t = choose|t: u128| self@ == pause_by(m0, MiningPausedReason::NeedConnection, t);
                assert((self@, Ok::<(), InvalidStateTransition>(())) == handle_event_spec(m0, ev, seq![t]));
                Ok(())
            },
            MiningEvent::UnPauseByNeedConnection => {
                self.unpause_by_need_connection();
                let ghost (t1, t2) = choose|t1: u128, t2: u128|
                    self@ == unpause_by(m0, MiningPausedReason::NeedConnection, t1, t2);
                assert((self@, Ok::<(), InvalidStateTransition>(())) == handle_event_spec(m0, ev, seq![t1, t2]));
                Ok(())
            },
            // if new-block-proposal arrives while we are guessing, then we need
            // to update the existing mining status, rather than advance to next
            // state, so that guessing time stays the time guessing started.
            MiningEvent::NewBlockProposal(proposal) => {
                if self.state_data.state() == MiningState::Guessing {
                    let since = self.state_data.since();
                    self.set_new_status(MiningStateData::Guessing(since, GuessingWorkInfo::new(proposal)));
                    assert((self@, Ok::<(), InvalidStateTransition>(())) == handle_event_spec(m0, ev, Seq::empty()));
                    Ok(())
                } else {
                    let ghost mut t0: u128 = 0;
                    // guesser skips Composing state.
                    if self.config.role_guess && self.state_data.state() == MiningState::AwaitBlockProposal {
                        let c = MiningStateData::composing();
                        proof {
                            t0 = status_since(c@);
                        }
                        let r0 = self.advance_plain(c);
                        if let Err(e) = r0 {
                            assert((self@, r0) == handle_event_spec(m0, ev, seq![t0, 0]));
                            return Err(e);
                        }
                    }
                    let ghost m1 = self@;
                    let s = MiningStateData::await_block(proposal);
                    let ghost t1 = status_since(s@);
                    let r = self.advance_plain(s);
                    assert((self@, r) == handle_event_spec(m0, ev, seq![t0, t1]));
                    r
                }
            },
            MiningEvent::NewTipBlock => {
                let s = MiningStateData::new_tip_block();
                let ghost t = status_since(s@);
                let r = self.advance_plain(s);
                assert((self@, r) == handle_event_spec(m0, ev, seq![t]));
                r
            },
            MiningEvent::ComposeError => {
                let s = MiningStateData::compose_error();
                let ghost t = status_since(s@);
                let r = self.advance_plain(s);
                assert((self@, r) == handle_event_spec(m0, ev, seq![t]));
                r
            },
            MiningEvent::Shutdown => {
                let s = MiningStateData::shutdown();
                let ghost t = status_since(s@);
                let r = self.advance_plain(s);
                assert((self@, r) == handle_event_spec(m0, ev, seq![t]));
                r
            },
        }
    }

    /// Moves to each status of `states` in turn with `advance_with`, stopping
    /// at the first error.
    pub fn exec_states(&mut self, states: Vec<MiningStateData>) -> (r: Result<(), InvalidStateTransition>)
        requires
            forall|i: int| 0 <= i < states@.len() ==> match #[trigger] states@[i]@ {
                StatusView::Paused(_, rs) => rs.len() > 0,
                _ => true,
            },
        ensures
            exists|tss: Seq<Seq<u128>>| (final(self)@, r) == states_spec(old(self)@, status_views(states@), tss),
    {
        let ghost m0 = self@;
        let ghost all = states@;
        let ghost views = status_views(all);
        let ghost mut tss: Seq<Seq<u128>> = Seq::empty();
        let mut i: usize = 0;
        let mut rest = states;
        assert(all.len() == rest.len());
        loop
            invariant
                i <= all.len(),
                all.len() <= usize::MAX,
                tss.len() == i,
                views == status_views(all),
                all == states@,
                m0 == old(self)@,
                rest@ == all.skip(i as int),
                forall|k: int| 0 <= k < all.len() ==> match #[trigger] all[k]@ {
                    StatusView::Paused(_, rs) => rs.len() > 0,
                    _ => true,
                },
                (self@, Ok::<(), InvalidStateTransition>(())) == states_spec(m0, views.take(i as int), tss),
            decreases all.len() - i,
        {
            let ghost before = self@;
            if rest.len() == 0 {
                proof {
                    assert(views.take(i as int) =~= views);
                    assert((self@, Ok::<(), InvalidStateTransition>(())) == states_spec(m0, views, tss));
                }
                return Ok(());
            }
            let state = rest.remove(0);
            assert(state == all[i as int]);
            assert(rest@ =~= all.skip(i + 1));
            let res = self.advance_with(state);
            let ghost ts = choose|ts: Seq<u128>| (self@, res) == advance_with_spec(before, views[i as int], ts);
            proof {
                assert(views.take(i + 1) =~= views.take(i as int).push(views[i as int]));
                lemma_states_step(m0, views.take(i as int), tss, views[i as int], ts);
                tss = tss.push(ts);
            }
            i = i + 1;
            match res {
                Ok(u) => {
                    assert(res == Ok::<(), InvalidStateTransition>(u));
                },
                Err(e) => {
                    proof {
                        let pad = tss + Seq::new((all.len() - i) as nat, |k: int| Seq::<u128>::empty());
                        assert(pad.take(i as int) =~= tss);
                        assert(pad.len() == views.len());
                        lemma_states_stop_at_error(m0, views, pad, i as int);
                    }
                    return Err(e);
                },
            }
        }
    }

    /// Handles each event of `events` in turn, stopping at the first error.
    pub fn exec_events(&mut self, events: Vec<MiningEvent>) -> (r: Result<(), InvalidStateTransition>)
        ensures
            exists|tss: Seq<Seq<u128>>| (final(self)@, r) == events_spec(old(self)@, events@, tss),
    {
        let ghost m0 = self@;
        let ghost all = events@;
        let ghost mut tss: Seq<Seq<u128>> = Seq::empty();
        let mut i: usize = 0;
        let mut rest = events;
        assert(all.len() == rest.len());
        loop
            invariant
                i <= all.len(),
                all.len() <= usize::MAX,
                tss.len() == i,
                all == events@,
                m0 == old(self)@,
                rest@ == all.skip(i as int),
                (self@, Ok::<(), InvalidStateTransition>(())) == events_spec(m0, all.take(i as int), tss),
            decreases all.len() - i,
        {
            let ghost before = self@;
            if rest.len() == 0 {
                proof {
                    assert(all.take(i as int) =~= all);
                    assert((self@, Ok::<(), InvalidStateTransition>(())) == events_spec(m0, all, tss));
                }
                return Ok(());
            }
            let event = rest.remove(0);
            assert(event == all[i as int]);
            assert(rest@ =~= all.skip(i + 1));
            let res = self.handle_event(event);
            let ghost ts = choose|ts: Seq<u128>| (self@, res) == handle_event_spec(before, all[i as int], ts);
            proof {
                assert(all.take(i + 1) =~= all.take(i as int).push(all[i as int]));
                lemma_events_step(m0, all.take(i as int), tss, all[i as int], ts);
                tss = tss.push(ts);
            }
            i = i + 1;
            match res {
                Ok(u) => {
                    assert(res == Ok::<(), InvalidStateTransition>(u));
                },
                Err(e) => {
                    proof {
                        let pad = tss + Seq::new((all.len() - i) as nat, |k: int| Seq::<u128>::empty());
                        assert(pad.take(i as int) =~= tss);
                        assert(pad.len() == all.len());
                        lemma_events_stop_at_error(m0, all, pad, i as int);
                    }
                    return Err(e);
                },
            }
        }
    }
}

/// Pausing for a reason sets that reason's flag, and unpausing for it clears
/// it; neither touches the other flags or the configuration.
pub proof fn lemma_pause_flags(m: MachineView, r: MiningPausedReason, t: u128, t1: u128, t2: u128)
    ensures
        pause_flag(pause_by(m, r, t), r),
        same_but_flag(pause_by(m, r, t), m, r),
        !pause_flag(unpause_by(m, r, t1, t2), r),
        same_but_flag(unpause_by(m, r, t1, t2), m, r),
{
}

/// The machine pauses once for a reason until it is unpaused for it: a second
/// pause for the same reason changes nothing, and neither does an unpause for
/// a reason it is not paused for.
pub proof fn lemma_pause_once_per_reason(m: MachineView, r: MiningPausedReason, t: u128, t_again: u128, t1: u128, t2: u128)
    ensures
        pause_by(pause_by(m, r, t), r, t_again) == pause_by(m, r, t),
        !pause_flag(m, r) ==> unpause_by(m, r, t1, t2) == m,
{
}

/// A pause for a reason the machine is not paused for moves a mining machine
/// to Paused from the states of the happy path and from Paused, and leaves
/// every other state, and every state of a machine that does not mine, as it
/// is. This holds while the machine is paused for at most one reason.
pub proof fn lemma_pause_changes_only_certain_states(m: MachineView, r: MiningPausedReason, t: u128)
    requires
        paused_count(m) <= 1,
        !pause_flag(m, r),
    ensures
        machine_state(pause_by(m, r, t)) == (if mining_enabled(m) && pausable(machine_state(m)) {
            MiningState::Paused
        } else {
            machine_state(m)
        }),
{
    let p = StatusView::Paused(t, seq![r]);
    if allowed(m, p) {
        if m.status is Paused {
        } else {
            assert(transitions(machine_state(m)).contains(MiningState::Paused));
        }
    } else if mining_enabled(m) && pausable(machine_state(m)) && machine_state(m) != MiningState::Paused {
        let ts = transitions(machine_state(m));
        assert(ts.contains(MiningState::Paused)) by {
            if machine_state(m) == MiningState::Init {
                assert(ts[2] == MiningState::Paused);
            } else if machine_state(m) == MiningState::AwaitBlockProposal {
                assert(ts[1] == MiningState::Paused);
            } else if machine_state(m) == MiningState::Composing {
                assert(ts[2] == MiningState::Paused);
            } else if machine_state(m) == MiningState::AwaitBlock {
                assert(ts[1] == MiningState::Paused);
            } else if machine_state(m) == MiningState::Guessing {
                assert(ts[1] == MiningState::Paused);
            } else {
                assert(ts[1] == MiningState::Paused);
            }
        }
    }
}

/// From a mining machine paused for no reason, a pause followed by the unpause
/// for the same reason ends in Init from the states of the happy path, from
/// Paused and from UnPaused, and leaves every other state as it is; a machine
/// that does not mine keeps its state.
pub proof fn lemma_unpause_changes_only_certain_states(m: MachineView, r: MiningPausedReason, t: u128, t1: u128, t2: u128)
    requires
        paused_count(m) == 0,
    ensures
        machine_state(unpause_by(pause_by(m, r, t), r, t1, t2)) == (if mining_enabled(m) && (pausable(
            machine_state(m),
        ) || machine_state(m) == MiningState::UnPaused) {
            MiningState::Init
        } else {
            machine_state(m)
        }),
{
    lemma_pause_changes_only_certain_states(m, r, t);
    let p = pause_by(m, r, t);
    assert(paused_count(p) <= 1);
    assert(pause_flag(p, r));
    let u = step(p, StatusView::UnPaused(t1)).0;
    if mining_enabled(m) {
        let sp = machine_state(p);
        if sp == MiningState::Paused {
            assert(transitions(MiningState::Paused)[0] == MiningState::UnPaused);
        }
        assert(machine_state(u) == MiningState::UnPaused || machine_state(u) == sp);
        if machine_state(u) == MiningState::UnPaused {
            assert(transitions(MiningState::UnPaused)[0] == MiningState::Init);
        }
    }
}

/// A merged pause keeps the reasons of a paused status free of repeats: the
/// time of the original pause stays, and the new reason is added at the end
/// unless it is already there.
pub proof fn lemma_pause_keeps_reasons_unique(m: MachineView, r: MiningPausedReason, t: u128)
    requires
        m.status matches StatusView::Paused(_, rs) ==> rs.no_duplicates(),
    ensures
        pause_by(m, r, t).status matches StatusView::Paused(_, rs) ==> rs.no_duplicates(),
        !pause_flag(m, r) && allowed(m, StatusView::Paused(t, seq![r])) ==> pause_by(m, r, t).status == (
        match m.status {
            StatusView::Paused(t0, rs) => StatusView::Paused(t0, if rs.contains(r) { rs } else { rs.push(r) }),
            _ => StatusView::Paused(t, seq![r]),
        }),
{
    if let StatusView::Paused(t0, rs) = m.status {
        lemma_seq_unique_push(rs, r);
        lemma_seq_unique(rs.push(r));
    }
}

/// Moving through the first `k + 1` statuses is moving through the first `k`,
/// then to the next one unless that failed.
pub proof fn lemma_states_prefix_step(m: MachineView, ss: Seq<StatusView>, tss: Seq<Seq<u128>>, k: int)
    requires
        0 <= k < ss.len(),
        ss.len() == tss.len(),
    ensures
        states_spec(m, ss.take(k + 1), tss.take(k + 1)) == (if states_spec(m, ss.take(k), tss.take(k)).1 is Err {
            states_spec(m, ss.take(k), tss.take(k))
        } else {
            advance_with_spec(states_spec(m, ss.take(k), tss.take(k)).0, ss[k], tss[k])
        }),
{
    assert(ss.take(k + 1) =~= ss.take(k).push(ss[k]));
    assert(tss.take(k + 1) =~= tss.take(k).push(tss[k]));
    lemma_states_step(m, ss.take(k), tss.take(k), ss[k], tss[k]);
}

/// Every machine in state Init and paused for no reason can walk the mining
/// happy path from Init back to Init: it fails only when the machine does not
/// mine and is strict, and a mining machine ends in Init.
pub proof fn lemma_happy_path(m: MachineView, ts: Seq<u128>, b1: Block, b2: Block, tss: Seq<Seq<u128>>)
    requires
        machine_state(m) == MiningState::Init,
        paused_count(m) == 0,
        ts.len() == 7,
        tss.len() == 7,
    ensures
        states_spec(m, happy_path_statuses(ts, b1, b2), tss).1 is Err <==> (!mining_enabled(m)
            && m.strict_state_transitions),
        mining_enabled(m) ==> machine_state(states_spec(m, happy_path_statuses(ts, b1, b2), tss).0)
            == MiningState::Init,
{
    let ss = happy_path_statuses(ts, b1, b2);
    assert(ss.take(0) =~= Seq::<StatusView>::empty());
    assert(tss.take(0) =~= Seq::<Seq<u128>>::empty());
    assert(transitions(MiningState::Init)[0] == MiningState::AwaitBlockProposal);
    assert(transitions(MiningState::AwaitBlockProposal)[0] == MiningState::Composing);
    assert(transitions(MiningState::Composing)[0] == MiningState::AwaitBlock);
    assert(transitions(MiningState::AwaitBlock)[0] == MiningState::Guessing);
    assert(transitions(MiningState::Guessing)[0] == MiningState::NewTipBlock);
    assert(transitions(MiningState::NewTipBlock)[0] == MiningState::Init);
    lemma_states_prefix_step(m, ss, tss, 0);
    lemma_states_prefix_step(m, ss, tss, 1);
    lemma_states_prefix_step(m, ss, tss, 2);
    lemma_states_prefix_step(m, ss, tss, 3);
    lemma_states_prefix_step(m, ss, tss, 4);
    lemma_states_prefix_step(m, ss, tss, 5);
    lemma_states_prefix_step(m, ss, tss, 6);
    assert(ss.take(7) =~= ss);
    assert(tss.take(7) =~= tss);
}

/// The events of the mining happy path, from Init back to Init, with the
/// block proposal `b`.
pub open spec fn happy_path_events(b: ProposedBlock) -> Seq<MiningEvent> {
    seq![
        MiningEvent::Init,
        MiningEvent::AwaitBlockProposal,
        MiningEvent::StartComposing,
        MiningEvent::NewBlockProposal(b),
        MiningEvent::StartGuessing,
        MiningEvent::NewTipBlock,
        MiningEvent::Init,
    ]
}

/// Handling the first `k + 1` events is handling the first `k`, then the
/// next one unless that failed.
pub proof fn lemma_events_prefix_step(m: MachineView, es: Seq<MiningEvent>, tss: Seq<Seq<u128>>, k: int)
    requires
        0 <= k < es.len(),
        es.len() == tss.len(),
    ensures
        events_spec(m, es.take(k + 1), tss.take(k + 1)) == (if events_spec(m, es.take(k), tss.take(k)).1 is Err {
            events_spec(m, es.take(k), tss.take(k))
        } else {
            handle_event_spec(events_spec(m, es.take(k), tss.take(k)).0, es[k], tss[k])
        }),
{
    assert(es.take(k + 1) =~= es.take(k).push(es[k]));
    assert(tss.take(k + 1) =~= tss.take(k).push(tss[k]));
    lemma_events_step(m, es.take(k), tss.take(k), es[k], tss[k]);
}

/// Every machine in state Init and paused for no reason can handle the events
/// of the mining happy path: it fails only when the machine does not mine
/// and is strict, and a mining machine ends in Init.
#[verifier::rlimit(80)]
pub proof fn lemma_happy_path_events(m: MachineView, b: ProposedBlock, tss: Seq<Seq<u128>>)
    requires
        machine_state(m) == MiningState::Init,
        paused_count(m) == 0,
        tss.len() == 7,
        forall|i: int| 0 <= i < 7 ==> #[trigger] tss[i].len() == 2,
    ensures
        events_spec(m, happy_path_events(b), tss).1 is Err <==> (!mining_enabled(m)
            && m.strict_state_transitions),
        mining_enabled(m) ==> machine_state(events_spec(m, happy_path_events(b), tss).0) == MiningState::Init,
{
    let es = happy_path_events(b);
    assert(es.take(0) =~= Seq::<MiningEvent>::empty());
    assert(tss.take(0) =~= Seq::<Seq<u128>>::empty());
    assert(transitions(MiningState::Init)[0] == MiningState::AwaitBlockProposal);
    assert(transitions(MiningState::AwaitBlockProposal)[0] == MiningState::Composing);
    assert(transitions(MiningState::Composing)[0] == MiningState::AwaitBlock);
    assert(transitions(MiningState::AwaitBlock)[0] == MiningState::Guessing);
    assert(transitions(MiningState::Guessing)[0] == MiningState::NewTipBlock);
    assert(transitions(MiningState::NewTipBlock)[0] == MiningState::Init);
    lemma_events_prefix_step(m, es, tss, 0);
    lemma_events_prefix_step(m, es, tss, 1);
    lemma_events_prefix_step(m, es, tss, 2);
    lemma_events_prefix_step(m, es, tss, 3);
    lemma_events_prefix_step(m, es, tss, 4);
    lemma_events_prefix_step(m, es, tss, 5);
    lemma_events_prefix_step(m, es, tss, 6);
    assert(es.take(7) =~= es);
    assert(tss.take(7) =~= tss);
}

/// The transition table, state by state: Init may be followed by
/// AwaitBlockProposal, NewTipBlock, Paused or Shutdown; AwaitBlockProposal
/// by Composing, Paused, Shutdown or NewTipBlock; Composing by AwaitBlock,
/// ComposeError, Paused, Shutdown or NewTipBlock; AwaitBlock by Guessing,
/// Paused, Shutdown or NewTipBlock; Guessing by NewTipBlock, Paused or
/// Shutdown; NewTipBlock by Init, Paused or Shutdown; ComposeError by
/// Shutdown; Paused by UnPaused or Shutdown; UnPaused by Init or Shutdown;
/// Disabled and Shutdown by nothing.
pub proof fn lemma_transition_table(s: MiningState, t: MiningState)
    ensures
        transitions(s).contains(t) <==> match s {
            MiningState::Init => t == MiningState::AwaitBlockProposal || t == MiningState::NewTipBlock
                || t == MiningState::Paused || t == MiningState::Shutdown,
            MiningState::AwaitBlockProposal => t == MiningState::Composing || t == MiningState::Paused
                || t == MiningState::Shutdown || t == MiningState::NewTipBlock,
            MiningState::Composing => t == MiningState::AwaitBlock || t == MiningState::ComposeError
                || t == MiningState::Paused || t == MiningState::Shutdown || t == MiningState::NewTipBlock,
            MiningState::AwaitBlock => t == MiningState::Guessing || t == MiningState::Paused
                || t == MiningState::Shutdown || t == MiningState::NewTipBlock,
            MiningState::Guessing => t == MiningState::NewTipBlock || t == MiningState::Paused
                || t == MiningState::Shutdown,
            MiningState::NewTipBlock => t == MiningState::Init || t == MiningState::Paused
                || t == MiningState::Shutdown,
            MiningState::ComposeError => t == MiningState::Shutdown,
            MiningState::Paused => t == MiningState::UnPaused || t == MiningState::Shutdown,
            MiningState::UnPaused => t == MiningState::Init || t == MiningState::Shutdown,
            MiningState::Disabled => false,
            MiningState::Shutdown => false,
        },
{
    let q = transitions(s);
    if exists|i: int| 0 <= i < q.len() && q[i] == t {
        let i = choose|i: int| 0 <= i < q.len() && q[i] == t;
        assert(q[i] == t);
    }
    assert(q.len() <= 5);
    if q.len() > 0 && q[0] == t { assert(q.contains(t)); }
    if q.len() > 1 && q[1] == t { assert(q.contains(t)); }
    if q.len() > 2 && q[2] == t { assert(q.contains(t)); }
    if q.len() > 3 && q[3] == t { assert(q.contains(t)); }
    if q.len() > 4 && q[4] == t { assert(q.contains(t)); }
}

/// A new tip block interrupts the happy path: a machine that composes or
/// guesses and is paused for at most one reason, in Init,
/// AwaitBlockProposal, Composing, AwaitBlock or Guessing, takes the
/// NewTipBlock status on a NewTipBlock event and reports success, strict or
/// not; nothing else about it changes.
pub proof fn lemma_new_tip_block_interrupts_happy_path(m: MachineView, ts: Seq<u128>)
    requires
        m.role_compose || m.role_guess,
        paused_count(m) <= 1,
        machine_state(m) == MiningState::Init || machine_state(m) == MiningState::AwaitBlockProposal
            || machine_state(m) == MiningState::Composing || machine_state(m) == MiningState::AwaitBlock
            || machine_state(m) == MiningState::Guessing,
    ensures
        handle_event_spec(m, MiningEvent::NewTipBlock, ts) == (
            MachineView { status: StatusView::NewTipBlock(ts[0]), ..m },
            Ok::<(), InvalidStateTransition>(()),
        ),
{
    lemma_transition_table(machine_state(m), MiningState::NewTipBlock);
}

/// How the machine answers a move to status `s`. A status of the present
/// state is taken only in Init. Otherwise a machine that neither composes
/// nor guesses may only become Disabled, one paused for more than one reason
/// may only shut down, and any other follows the transition table. A move
/// that is taken replaces the status and nothing else and succeeds; one that
/// is refused leaves the machine as it is, and fails, naming both states,
/// exactly when the machine is strict.
pub proof fn lemma_step_rules(m: MachineView, s: StatusView)
    ensures
        ({
            let moves = if status_state(s) == machine_state(m) {
                status_state(s) == MiningState::Init
            } else if !(m.role_compose || m.role_guess) {
                status_state(s) == MiningState::Disabled
            } else if paused_count(m) > 1 {
                status_state(s) == MiningState::Shutdown
            } else {
                transitions(machine_state(m)).contains(status_state(s))
            };
            &&& moves ==> step(m, s) == (MachineView { status: s, ..m }, Ok::<(), InvalidStateTransition>(()))
            &&& !moves && m.strict_state_transitions ==> step(m, s) == (
                m,
                Err::<(), InvalidStateTransition>(
                    InvalidStateTransition { old_state: machine_state(m), new_state: status_state(s) },
                ),
            )
            &&& !moves && !m.strict_state_transitions ==> step(m, s) == (m, Ok::<(), InvalidStateTransition>(()))
        }),
{
}

} // verus!
