use neptune_core::mining_status::{
    Block, MiningEvent, MiningPausedReason, MiningState, MiningStateData, MiningStateMachine,
    NativeCurrencyAmount, ProposedBlock, TransactionKernel, GuessingWorkInfo,
};
use rand::seq::SliceRandom;

const HAPPY_PATH_STATE_TRANSITIONS: &[MiningState] = &[
    MiningState::Init,
    MiningState::AwaitBlockProposal,
    MiningState::Composing,
    MiningState::AwaitBlock,
    MiningState::Guessing,
    MiningState::NewTipBlock,
];

const ALL_STATES: &[MiningState] = &[
    MiningState::Init,
    MiningState::AwaitBlockProposal,
    MiningState::Composing,
    MiningState::AwaitBlock,
    MiningState::Guessing,
    MiningState::NewTipBlock,
    MiningState::ComposeError,
    MiningState::Paused,
    MiningState::UnPaused,
    MiningState::Disabled,
    MiningState::Shutdown,
];

const ALL_REASONS: &[MiningPausedReason] = &[
    MiningPausedReason::Rpc,
    MiningPausedReason::SyncBlocks,
    MiningPausedReason::NeedConnection,
];

fn pause_events() -> Vec<MiningEvent> {
    vec![
        MiningEvent::PauseByNeedConnection,
        MiningEvent::PauseByRpc,
        MiningEvent::PauseBySyncBlocks,
    ]
}

fn unpause_events() -> Vec<MiningEvent> {
    vec![
        MiningEvent::UnPauseByNeedConnection,
        MiningEvent::UnPauseByRpc,
        MiningEvent::UnPauseBySyncBlocks,
    ]
}

fn fake_proposed_block() -> ProposedBlock {
    Box::new(Block {
        height: 0,
        kernel: TransactionKernel {
            num_inputs: 0,
            num_outputs: 0,
            coinbase: None,
            fee: NativeCurrencyAmount(0),
        },
    })
}

// returns a list of MiningStateMachine, one for every possible configuration.
fn machine_matrix() -> Vec<MiningStateMachine> {
    let mut machines = vec![];
    for strict in [true, false] {
        for composing in [true, false] {
            for guessing in [true, false] {
                machines.push(MiningStateMachine::new(strict, composing, guessing));
            }
        }
    }
    machines
}

fn machine_event_matrix(events: &[MiningEvent]) -> Vec<(MiningStateMachine, MiningEvent)> {
    let mut out = vec![];
    for machine in machine_matrix() {
        for event in events {
            out.push((machine.clone(), event.clone()));
        }
    }
    out
}

fn machine_dual_event_matrix(events1: &[MiningEvent], events2: &[MiningEvent]) -> Vec<(MiningStateMachine, MiningEvent, MiningEvent)> {
    let mut out = vec![];
    for machine in machine_matrix() {
        for e1 in events1 {
            for e2 in events2 {
                out.push((machine.clone(), e1.clone(), e2.clone()));
            }
        }
    }
    out
}

fn all_pause_and_unpause_events() -> Vec<(MiningEvent, MiningEvent)> {
    pause_events().into_iter().zip(unpause_events()).collect()
}

fn state_to_state_data(state: MiningState) -> MiningStateData {
    match state {
        MiningState::AwaitBlock => MiningStateData::await_block(fake_proposed_block()),
        MiningState::Guessing => MiningStateData::guessing(GuessingWorkInfo::new(fake_proposed_block())),
        _ => MiningStateData::try_from_state(state).unwrap(),
    }
}

fn compose_and_guess_happy_path() -> Vec<MiningStateData> {
    HAPPY_PATH_STATE_TRANSITIONS
        .iter()
        .cycle()
        .take(HAPPY_PATH_STATE_TRANSITIONS.len() + 1)
        .map(|s| state_to_state_data(*s))
        .collect()
}

fn all_enabled_status() -> Vec<MiningStateData> {
    let mut ms = vec![];
    for state in ALL_STATES.iter().filter(|s| **s != MiningState::Disabled) {
        match state {
            MiningState::Paused => {
                for reason in ALL_REASONS {
                    ms.push(MiningStateData::paused(*reason))
                }
            }
            _ => ms.push(state_to_state_data(*state)),
        }
    }
    ms
}

fn all_reachable_status(machine: &MiningStateMachine) -> Vec<MiningStateData> {
    if machine.mining_enabled() {
        all_enabled_status()
    } else {
        vec![MiningStateData::disabled()]
    }
}

fn advance_init_to_status(machine: &mut MiningStateMachine, target: MiningState) {
    for status in compose_and_guess_happy_path() {
        let state = status.state();
        machine.advance_with(status).unwrap();
        if state == target {
            break;
        }
    }
}

fn events_compose_and_guess() -> Vec<MiningEvent> {
    vec![
        MiningEvent::Advance,
        MiningEvent::NewBlockProposal(fake_proposed_block()),
        MiningEvent::Advance,
        MiningEvent::Advance,
    ]
}

fn check_happy_events(events: Vec<MiningEvent>) {
    for mut machine in machine_matrix() {
        let result = machine.exec_events(events.clone());

        if !machine.mining_enabled() && machine.config().strict_state_transitions {
            assert!(result.is_err());
        } else {
            assert!(result.is_ok());
        }
    }
}

#[test]
fn mining_status_compose_and_guess_happy_path() {
    for mut machine in machine_matrix() {
        let result = machine.exec_states(compose_and_guess_happy_path());

        if !machine.mining_enabled() && machine.config().strict_state_transitions {
            assert!(result.is_err());
        } else {
            assert!(result.is_ok());
        }
    }
}

#[test]
fn mining_status_can_pause_all_along_happy_path() {
    for (machine_in, pause_event) in machine_event_matrix(&pause_events()) {
        if machine_in.mining_enabled() {
            for status in compose_and_guess_happy_path() {
                let mut machine = machine_in.clone();
                advance_init_to_status(&mut machine, status.state());
                machine.handle_event(pause_event.clone()).unwrap();
            }
        }
    }
}

#[test]
fn mining_status_can_pause_during_every_state() {
    for (machine_in, pause_event) in machine_event_matrix(&pause_events()) {
        for status in all_reachable_status(&machine_in) {
            let mut machine = machine_in.clone();
            machine.force_state_data(status);
            machine.handle_event(pause_event.clone()).unwrap();
        }
    }
}

#[test]
fn mining_status_pause_changes_only_certain_states() {
    for (machine_in, pause_event) in machine_event_matrix(&pause_events()) {
        for status in all_reachable_status(&machine_in) {
            let mut machine = machine_in.clone();
            let ss = status.state();
            machine.force_state_data(status);
            machine.handle_event(pause_event.clone()).unwrap();

            let ms = machine.state_data().state();
            let ps = MiningState::Paused;

            match ss {
                MiningState::Init => assert_eq!(ms, ps),
                MiningState::AwaitBlockProposal => assert_eq!(ms, ps),
                MiningState::Composing => assert_eq!(ms, ps),
                MiningState::AwaitBlock => assert_eq!(ms, ps),
                MiningState::Guessing => assert_eq!(ms, ps),
                MiningState::NewTipBlock => assert_eq!(ms, ps),
                MiningState::ComposeError => assert_eq!(ms, ss),
                MiningState::Paused => assert_eq!(ms, ps),
                MiningState::UnPaused => assert_eq!(ms, ss),
                MiningState::Disabled => assert_eq!(ms, ss),
                MiningState::Shutdown => assert_eq!(ms, ss),
            }
        }
    }
}

#[test]
fn mining_status_unpause_changes_only_certain_states() {
    for (machine_in, pause_event, unpause_event) in machine_dual_event_matrix(&pause_events(), &unpause_events()) {
        for status in all_reachable_status(&machine_in) {
            let mut machine = machine_in.clone();
            let ss = status.state();
            machine.force_state_data(status);
            machine.handle_event(pause_event.clone()).unwrap();
            machine.handle_event(unpause_event.clone()).unwrap();

            let ms = machine.state_data().state();
            let is = MiningState::Init;

            match ss {
                MiningState::Init => assert_eq!(ms, is),
                MiningState::AwaitBlockProposal => assert_eq!(ms, is),
                MiningState::Composing => assert_eq!(ms, is),
                MiningState::AwaitBlock => assert_eq!(ms, is),
                MiningState::Guessing => assert_eq!(ms, is),
                MiningState::NewTipBlock => assert_eq!(ms, is),
                MiningState::ComposeError => assert_eq!(ms, ss),
                MiningState::Paused => assert_eq!(ms, is),
                MiningState::UnPaused => assert_eq!(ms, is),
                MiningState::Disabled => assert_eq!(ms, ss),
                MiningState::Shutdown => assert_eq!(ms, ss),
            }
        }
    }
}

#[test]
fn mining_status_mixed_pause_unpause_types() {
    for mut machine in machine_matrix() {
        let mut paused_by_rpc = false;
        let mut paused_while_syncing = false;
        let mut paused_need_connection = false;

        let mut status = all_reachable_status(&machine);
        let mut events: Vec<MiningEvent> = all_pause_and_unpause_events()
            .into_iter()
            .flat_map(|(a, b)| [a, b])
            .collect();

        for _ in 0..50 {
            status.shuffle(&mut rand::rng());
            events.shuffle(&mut rand::rng());

            machine.force_state_data(status.first().cloned().unwrap());

            for event in events.iter() {
                match *event {
                    MiningEvent::PauseByNeedConnection => paused_need_connection = true,
                    MiningEvent::UnPauseByNeedConnection => paused_need_connection = false,
                    MiningEvent::PauseByRpc => paused_by_rpc = true,
                    MiningEvent::UnPauseByRpc => paused_by_rpc = false,
                    MiningEvent::PauseBySyncBlocks => paused_while_syncing = true,
                    MiningEvent::UnPauseBySyncBlocks => paused_while_syncing = false,
                    _ => {}
                }
                machine.handle_event(event.clone()).unwrap();
            }
        }

        assert_eq!(paused_by_rpc, machine.paused_by_rpc());
        assert_eq!(paused_while_syncing, machine.paused_while_syncing());
        assert_eq!(paused_need_connection, machine.paused_need_connection());

        let paused_count = paused_by_rpc as u8 + paused_while_syncing as u8 + paused_need_connection as u8;
        assert_eq!(paused_count, machine.paused_count());
    }
}

#[test]
fn events_compose_and_guess_happy_path() {
    check_happy_events(events_compose_and_guess());
}

#[test]
fn mining_status_compose_happy_path() {
    check_happy_events(events_compose_and_guess());
}

#[test]
fn mining_status_guess_happy_path() {
    check_happy_events(events_compose_and_guess());
}
