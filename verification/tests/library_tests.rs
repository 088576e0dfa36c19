use neptune_core::blockchain_state::{BlockchainArchivalState, BlockchainState};
use neptune_core::cli_support::{
    recipient_label, transfer_file_name, AddressEnum, MissingColon, TransactionOutputText,
    UtxoTransferEntry,
};
use neptune_core::clock::{elapsed, human_duration_secs};
use neptune_core::job_queue::{JobResultWrapper, LogWhenDropped};
use neptune_core::mining_status::{
    happy_path_successor, merge_paused_status, BlockSummary, MiningPausedReason, MiningState,
    MiningStateData, MiningStatus, NativeCurrencyAmount,
};
use neptune_core::network::Network;
use neptune_core::vm::{run_vm_steps, VmRunEnd};
use neptune_core::proof_builder::{CreateProofError, ProofBuildPlan, ProofBuilder, WitnessSource};
use neptune_core::rpc_auth::{AuthError, Cookie, Token};
use neptune_core::single_proof_builder::{SingleProofBuilder, SingleProofPlan};
use neptune_core::transaction_params::{NeptuneCoins, Timestamp, TxInputList, TxOutputList, TxParams, TxParamsError};
use neptune_core::transaction_proof_builder::{TransactionProofBuilder, TransactionProofPlan};
use neptune_core::triton_vm_job_queue::{ProverJobSettings, TritonVmJobPriority, TritonVmProofJobOptions};
use neptune_core::tx_proving_capability::{
    capability_text_is_well_formed, InvalidProvingCapability, TransactionProofType, TxProvingCapability,
};
use neptune_core::wallet_database::{migration_steps, schema_action, SchemaAction, SCHEMA_VERSION};

fn options(network: Network, capability: TxProvingCapability) -> TritonVmProofJobOptions {
    TritonVmProofJobOptions {
        job_priority: TritonVmJobPriority::Normal,
        job_settings: ProverJobSettings {
            max_log2_padded_height_for_proofs: None,
            network,
            tx_proving_capability: capability,
        },
    }
}

// ---- proving capability ----

#[test]
fn capability_can_prove_by_level() {
    assert!(!TxProvingCapability::LockScript.can_prove(TransactionProofType::PrimitiveWitness));
    assert!(TxProvingCapability::PrimitiveWitness.can_prove(TransactionProofType::PrimitiveWitness));
    assert!(!TxProvingCapability::PrimitiveWitness.can_prove(TransactionProofType::ProofCollection));
    assert!(TxProvingCapability::ProofCollection.can_prove(TransactionProofType::ProofCollection));
    assert!(!TxProvingCapability::ProofCollection.can_prove(TransactionProofType::SingleProof));
    assert!(TxProvingCapability::SingleProof.can_prove(TransactionProofType::SingleProof));
    assert!(TxProvingCapability::Log2PaddedHeight(11).can_prove(TransactionProofType::ProofCollection));
    assert!(!TxProvingCapability::Log2PaddedHeight(10).can_prove(TransactionProofType::ProofCollection));
    assert!(!TxProvingCapability::Log2PaddedHeight(30).can_prove(TransactionProofType::SingleProof));
}

#[test]
fn capability_parses_cli_text() {
    assert_eq!(TxProvingCapability::from_str("lockscript"), Ok(TxProvingCapability::LockScript));
    assert_eq!(TxProvingCapability::from_str("proofcollection"), Ok(TxProvingCapability::ProofCollection));
    assert_eq!(TxProvingCapability::from_str("singleproof"), Ok(TxProvingCapability::SingleProof));
    assert_eq!(TxProvingCapability::from_str("Log2PaddedHeight=21"), Ok(TxProvingCapability::Log2PaddedHeight(21)));
    assert_eq!(TxProvingCapability::from_str("Log2PaddedHeight=+7"), Ok(TxProvingCapability::Log2PaddedHeight(7)));
    assert_eq!(TxProvingCapability::from_str("primitivewitness"), Err(InvalidProvingCapability));
    assert_eq!(TxProvingCapability::from_str("SingleProof"), Err(InvalidProvingCapability));
}

#[test]
fn capability_names() {
    assert_eq!(TxProvingCapability::PrimitiveWitness.display_name(), "primitive witness");
    assert_eq!(TxProvingCapability::Log2PaddedHeight(3).to_display_string(), "log2-padded-height");
    assert_eq!(TxProvingCapability::Log2PaddedHeight(23).possible_value_name(), "Log2PaddedHeight=23");
    assert_eq!(TxProvingCapability::SingleProof.possible_value_name(), "SingleProof");
    assert_eq!(TxProvingCapability::value_variants().len(), 5);
    assert_eq!(TxProvingCapability::default(), TxProvingCapability::PrimitiveWitness);
}

#[test]
fn capability_proof_types() {
    assert_eq!(TransactionProofType::from_capability(TxProvingCapability::Log2PaddedHeight(11)), TransactionProofType::ProofCollection);
    assert_eq!(TransactionProofType::from_capability(TxProvingCapability::Log2PaddedHeight(25)), TransactionProofType::ProofCollection);
    assert_eq!(TransactionProofType::from_capability(TxProvingCapability::Log2PaddedHeight(2)), TransactionProofType::PrimitiveWitness);
    assert_eq!(TransactionProofType::SingleProof.number(), 3);
}

#[test]
fn claim_verdict_by_padded_height() {
    let c = TxProvingCapability::Log2PaddedHeight(10);
    // 512 cycles pad to 512 < 1024
    assert_eq!(c.claim_verdict(VmRunEnd::Halted(512)), Some(true));
    // 513 cycles pad to 1024, not below 1024
    assert_eq!(c.claim_verdict(VmRunEnd::Halted(513)), Some(false));
    assert_eq!(c.claim_verdict(VmRunEnd::Failed), Some(false));
    assert_eq!(c.claim_verdict(VmRunEnd::Exceeded), Some(false));
    assert_eq!(TxProvingCapability::SingleProof.claim_verdict(VmRunEnd::Halted(1)), Some(false));
    assert_eq!(TxProvingCapability::Log2PaddedHeight(40).claim_verdict(VmRunEnd::Halted(1)), None);
    assert_eq!(TxProvingCapability::Log2PaddedHeight(40).claim_verdict(VmRunEnd::Exceeded), None);
}

// ---- proof builders ----

#[test]
fn proof_builder_needs_program_claim_and_secret_input() {
    let plan = ProofBuilder::<u8>::new().job_queue(1).build();
    assert!(matches!(plan, ProofBuildPlan::Fail(CreateProofError::MissingRequirement)));
}

#[test]
fn single_proof_builder_mocks_on_regtest() {
    let plan = SingleProofBuilder::<u8, u8, u8, u8, u8>::new()
        .proof_job_options(options(Network::RegTest, TxProvingCapability::PrimitiveWitness))
        .valid_mock(false)
        .build();
    assert!(matches!(plan, SingleProofPlan::Mock { valid: false }));
}

#[test]
fn single_proof_builder_refuses_weak_device() {
    let plan = SingleProofBuilder::<u8, u8, u8, u8, u8>::new()
        .proof_job_options(options(Network::Main, TxProvingCapability::ProofCollection))
        .primitive_witness(3)
        .build();
    assert!(matches!(
        plan,
        SingleProofPlan::Fail(CreateProofError::TooWeak {
            proof_type: TransactionProofType::SingleProof,
            capability: TxProvingCapability::ProofCollection
        })
    ));
}

#[test]
fn single_proof_builder_prefers_collection_over_witness() {
    let details: u8 = 9;
    let plan = SingleProofBuilder::<u8, u8, u8, u8, u8>::new()
        .proof_job_options(options(Network::Main, TxProvingCapability::SingleProof))
        .transaction_details(&details)
        .primitive_witness(3)
        .proof_collection(5)
        .build();
    assert!(matches!(plan, SingleProofPlan::ProveCollection { proof_collection: 5, .. }));
}

#[test]
fn single_proof_builder_without_options_fails() {
    let plan = SingleProofBuilder::<u8, u8, u8, u8, u8>::new().primitive_witness(3).build();
    assert!(matches!(plan, SingleProofPlan::Fail(CreateProofError::MissingRequirement)));
}

#[test]
fn transaction_proof_builder_defaults_to_strongest_type() {
    let details: u8 = 4;
    let plan = TransactionProofBuilder::<u8, u8, u8>::new()
        .proof_job_options(options(Network::Main, TxProvingCapability::ProofCollection))
        .transaction_details(&details)
        .build();
    match plan {
        TransactionProofPlan::Produce { witness: WitnessSource::FromDetails(d), proof_type, .. } => {
            assert_eq!(*d, 4);
            assert_eq!(proof_type, TransactionProofType::ProofCollection);
        }
        _ => panic!("unexpected plan"),
    }
}

#[test]
fn transaction_proof_builder_refuses_weak_device() {
    let plan = TransactionProofBuilder::<u8, u8, u8>::new()
        .proof_job_options(options(Network::Main, TxProvingCapability::PrimitiveWitness))
        .proof_type(TransactionProofType::SingleProof)
        .primitive_witness(1)
        .build();
    assert!(matches!(
        plan,
        TransactionProofPlan::Fail(CreateProofError::TooWeak {
            proof_type: TransactionProofType::SingleProof,
            capability: TxProvingCapability::PrimitiveWitness
        })
    ));
}

#[test]
fn transaction_proof_builder_mock_ignores_capability() {
    let plan = TransactionProofBuilder::<u8, u8, u8>::new()
        .proof_job_options(options(Network::RegTest, TxProvingCapability::PrimitiveWitness))
        .proof_type(TransactionProofType::SingleProof)
        .primitive_witness(1)
        .build();
    assert!(matches!(
        plan,
        TransactionProofPlan::Mock { witness: WitnessSource::Owned(1), proof_type: TransactionProofType::SingleProof, valid: true }
    ));
}

#[test]
fn transaction_proof_builder_witness_target_with_lock_script_capability() {
    let on_regtest = TransactionProofBuilder::<u8, u8, u8>::new()
        .proof_job_options(options(Network::RegTest, TxProvingCapability::LockScript))
        .proof_type(TransactionProofType::PrimitiveWitness)
        .primitive_witness(7)
        .build();
    assert!(matches!(
        on_regtest,
        TransactionProofPlan::Mock { witness: WitnessSource::Owned(7), proof_type: TransactionProofType::PrimitiveWitness, valid: true }
    ));
    let on_alpha = TransactionProofBuilder::<u8, u8, u8>::new()
        .proof_job_options(options(Network::Alpha, TxProvingCapability::PrimitiveWitness))
        .proof_type(TransactionProofType::PrimitiveWitness)
        .primitive_witness(8)
        .build();
    assert!(matches!(
        on_alpha,
        TransactionProofPlan::Produce { witness: WitnessSource::Owned(8), proof_type: TransactionProofType::PrimitiveWitness, .. }
    ));
    let on_main = TransactionProofBuilder::<u8, u8, u8>::new()
        .proof_job_options(options(Network::Main, TxProvingCapability::LockScript))
        .proof_type(TransactionProofType::PrimitiveWitness)
        .primitive_witness(9)
        .build();
    assert!(matches!(
        on_main,
        TransactionProofPlan::Fail(CreateProofError::TooWeak {
            proof_type: TransactionProofType::PrimitiveWitness,
            capability: TxProvingCapability::LockScript
        })
    ));
}

#[test]
fn transaction_proof_builder_needs_a_witness() {
    let plan = TransactionProofBuilder::<u8, u8, u8>::new()
        .proof_job_options(options(Network::Main, TxProvingCapability::SingleProof))
        .build();
    assert!(matches!(plan, TransactionProofPlan::Fail(CreateProofError::MissingRequirement)));
}

#[test]
fn job_options_from_priority() {
    let o = TritonVmProofJobOptions::from(TritonVmJobPriority::High);
    assert_eq!(o.job_priority, TritonVmJobPriority::High);
    assert_eq!(o.job_settings.max_log2_padded_height_for_proofs, None);
    let o2 = TritonVmProofJobOptions::from((TritonVmJobPriority::Low, Some(20)));
    assert_eq!(o2.job_settings.max_log2_padded_height_for_proofs, Some(20));
    assert_eq!(TritonVmJobPriority::default().number(), 3);
    assert!(TritonVmJobPriority::Highest.is_above(&TritonVmJobPriority::High));
    assert!(Network::RegTest.use_mock_proof());
    assert!(!Network::Main.use_mock_proof());
}

// ---- transaction parameters ----

#[test]
fn tx_params_fee_is_inputs_minus_outputs() {
    let p = TxParams::new_with_timestamp(
        TxInputList(vec![NeptuneCoins(10), NeptuneCoins(5)]),
        TxOutputList(vec![NeptuneCoins(12)]),
        Timestamp(1000),
    )
    .unwrap();
    assert_eq!(p.fee(), NeptuneCoins(3));
    assert_eq!(*p.timestamp(), Timestamp(1000));
    assert_eq!(p.tx_input_list().0.len(), 2);
    assert_eq!(p.tx_output_list().0.len(), 1);
}

#[test]
fn tx_params_refuse_outputs_above_inputs() {
    let r = TxParams::new(TxInputList(vec![NeptuneCoins(1)]), TxOutputList(vec![NeptuneCoins(2)]));
    assert!(matches!(r, Err(TxParamsError::OutputsExceedInputs)));
}

// ---- blockchain state ----

#[test]
fn blockchain_state_accessors() {
    let mut archival: BlockchainState<u32, u8> = BlockchainState::Archival(BlockchainArchivalState { archival_state: 7, light_state: 2 });
    assert!(archival.is_archival_node());
    assert_eq!(*archival.archival_state(), 7);
    *archival.archival_state_mut() = 8;
    *archival.light_state_mut() = 3;
    assert_eq!(*archival.archival_state(), 8);
    assert_eq!(*archival.light_state(), 3);

    let mut light: BlockchainState<u32, u8> = BlockchainState::Light(5);
    assert!(!light.is_archival_node());
    *light.light_state_mut() = 6;
    assert_eq!(*light.light_state(), 6);
}

// ---- wallet database ----

#[test]
fn wallet_schema_actions() {
    assert_eq!(schema_action(0, true), SchemaAction::SetNewVersion);
    assert_eq!(schema_action(0, false), SchemaAction::Migrate { from: 0, to: SCHEMA_VERSION });
    assert_eq!(schema_action(1, true), SchemaAction::UpToDate);
    assert_eq!(schema_action(2, false), SchemaAction::TooNew { expected: 1, found: 2 });
    assert_eq!(migration_steps(0, 1), vec![1]);
}

// ---- rpc authentication ----

#[test]
fn cookie_auth() {
    let valid = Cookie::from_bytes([7; 32]);
    let same = Cookie::from_bytes([7; 32]);
    let mut other_bytes = [7; 32];
    other_bytes[31] = 8;
    let other = Cookie::from_bytes(other_bytes);
    assert_eq!(same.auth(&valid), Ok(()));
    assert_eq!(other.auth(&valid), Err(AuthError::InvalidCookie));

    let valid_tokens: Vec<Token> = vec![valid.into()];
    assert_eq!(Token::from_cookie(same).auth(&valid_tokens), Ok(()));
    assert_eq!(Token::from(other).auth(&valid_tokens), Err(AuthError::InvalidCookie));
    assert_ne!(Cookie::new_in_mem(), valid);
}

// ---- command-line client ----

#[test]
fn output_text_parsing() {
    let o = TransactionOutputText::parse("addr1:12.5:bob").unwrap();
    assert_eq!((o.address.as_str(), o.amount.as_str(), o.recipient.as_str()), ("addr1", "12.5", "bob"));
    let o = TransactionOutputText::parse("addr1:3").unwrap();
    assert_eq!(o.recipient, "anonymous");
    assert!(matches!(TransactionOutputText::parse("addr1"), Err(MissingColon)));
    assert!(matches!(TransactionOutputText::parse("a:b:c:d"), Err(MissingColon)));
    let o = TransactionOutputText::parse(":5:").unwrap();
    assert_eq!((o.address.as_str(), o.amount.as_str(), o.recipient.as_str()), ("", "5", ""));
}

#[test]
fn transfer_labels_and_file_names() {
    assert_eq!(recipient_label(true, "anonymous".to_string()), "self");
    assert_eq!(recipient_label(false, "anonymous".to_string()), "anonymous");
    assert_eq!(recipient_label(true, "alice".to_string()), "alice");
    assert_eq!(transfer_file_name("nolgam1abc", "bob", "5", 0), "nolgam1abc-5.json");
    assert_eq!(transfer_file_name("nolgam1abc", "bob", "5", 12), "bob-5.12.json");
    assert_eq!(UtxoTransferEntry::data_format(), "neptune-utxo-transfer-v1.0");
    let a = AddressEnum::Symmetric { privacy_digest: "d".to_string(), receiver_identifier: "42".to_string() };
    assert_eq!(a.short_id(), "42");
    let g = AddressEnum::Generation { address_abbrev: "ab".to_string(), address: "abcdef".to_string() };
    assert_eq!(g.short_id(), "ab");
}

// ---- job queue pieces ----

#[test]
fn job_result_wrapper_round_trip() {
    let w = JobResultWrapper::from(vec![2u128, 3, 5]);
    assert_eq!(w.get(), &vec![2u128, 3, 5]);
    assert_eq!(w.clone().into_inner(), vec![2u128, 3, 5]);
    let n = JobResultWrapper::from(42u64);
    assert_eq!(n.clone().into_inner(), 42u64);
    assert_eq!(*n.get(), 42u64);
    assert_eq!(w.into_inner(), vec![2u128, 3, 5]);
    let l = LogWhenDropped(4u8);
    assert_eq!(*l.get(), 4);
}

// ---- clock and status display ----

#[test]
fn human_duration_drops_sub_seconds() {
    assert_eq!(human_duration_secs(Some(7_500_000_000)), "7s");
    assert_eq!(human_duration_secs(Some(3_723_000_000_000)), "1h 2m 3s");
    assert_eq!(human_duration_secs(None), "0s");
    assert_eq!(elapsed(5, 3), None);
    assert_eq!(elapsed(3, 5), Some(2));
}

#[test]
fn mining_status_text() {
    let paused = MiningStatus::Paused(0, vec![MiningPausedReason::Rpc, MiningPausedReason::SyncBlocks]);
    assert_eq!(paused.text_at(7_000_000_500), "paused for 7s  (user, syncing blocks)");
    let summary = BlockSummary {
        num_inputs: 3,
        num_outputs: 4,
        total_coinbase: NativeCurrencyAmount(0),
        total_guesser_fee: NativeCurrencyAmount(-12),
    };
    let guessing = MiningStatus::Guessing(1_000_000_000, summary);
    assert_eq!(guessing.text_at(66_000_000_000), "guessing for 1m 5s 3/4; total guesser reward: -12");
    assert_eq!(MiningStatus::Disabled(0).text_at(5), "disabled");
    assert_eq!(MiningState::from_status(&guessing), MiningState::Guessing);
}

// ---- trusted calls seen through the library ----

#[test]
fn claim_run_in_the_vm_decides_by_cycle_count() {
    let program = triton_vm::prelude::Program::from_code("push 1 push 2 add halt").unwrap();
    let claim = triton_vm::prelude::Claim::new(program.hash());
    let nd = triton_vm::prelude::NonDeterminism::default();
    // three cycles pad to 4: below 2^3 but not below 2^2
    assert_eq!(
        TxProvingCapability::Log2PaddedHeight(3).can_prove_claim_triple(program.clone(), claim.clone(), nd.clone()),
        Some(true)
    );
    assert_eq!(
        TxProvingCapability::Log2PaddedHeight(2).can_prove_claim_triple(program.clone(), claim.clone(), nd.clone()),
        Some(false)
    );
    assert_eq!(TxProvingCapability::SingleProof.can_prove_claim_triple(program, claim, nd), Some(false));
}

#[test]
fn failing_vm_run_proves_nothing() {
    let program = triton_vm::prelude::Program::from_code("push 0 assert halt").unwrap();
    let claim = triton_vm::prelude::Claim::new(program.hash());
    let nd = triton_vm::prelude::NonDeterminism::default();
    assert_eq!(TxProvingCapability::Log2PaddedHeight(20).can_prove_claim_triple(program, claim, nd), Some(false));
}

#[test]
fn non_halting_run_proves_nothing() {
    let program = triton_vm::prelude::Program::from_code("call spin halt spin: nop recurse").unwrap();
    let claim = triton_vm::prelude::Claim::new(program.hash());
    let nd = triton_vm::prelude::NonDeterminism::default();
    assert_eq!(TxProvingCapability::Log2PaddedHeight(8).can_prove_claim_triple(program, claim, nd), Some(false));
}

#[test]
fn vm_run_stops_when_the_steps_run_out() {
    let program = triton_vm::prelude::Program::from_code("call spin halt spin: nop recurse").unwrap();
    let claim = triton_vm::prelude::Claim::new(program.hash());
    let mut state = triton_vm::prelude::VMState::new(program, claim.input.clone().into(), Default::default());
    assert_eq!(run_vm_steps(&mut state, 100), VmRunEnd::Exceeded);
    assert_eq!(state.cycle_count, 100);

    let program = triton_vm::prelude::Program::from_code("push 1 push 2 add halt").unwrap();
    let claim = triton_vm::prelude::Claim::new(program.hash());
    let mut state = triton_vm::prelude::VMState::new(program, claim.input.clone().into(), Default::default());
    assert_eq!(run_vm_steps(&mut state, 100), VmRunEnd::Halted(4));
    assert!(state.halting);
    assert_eq!(state.cycle_count, 4);
}

#[test]
fn merged_pause_keeps_time_and_unique_reasons() {
    let current = MiningStateData::Paused(5, vec![MiningPausedReason::Rpc, MiningPausedReason::SyncBlocks]);
    let merged = merge_paused_status(&current, MiningStateData::paused(MiningPausedReason::Rpc), MiningPausedReason::Rpc);
    match merged {
        MiningStateData::Paused(t, reasons) => {
            assert_eq!(t, 5);
            assert_eq!(reasons, vec![MiningPausedReason::Rpc, MiningPausedReason::SyncBlocks]);
        }
        _ => panic!("not paused"),
    }
    let merged = merge_paused_status(&current, MiningStateData::paused(MiningPausedReason::NeedConnection), MiningPausedReason::NeedConnection);
    match merged {
        MiningStateData::Paused(t, reasons) => {
            assert_eq!(t, 5);
            assert_eq!(
                reasons,
                vec![MiningPausedReason::Rpc, MiningPausedReason::SyncBlocks, MiningPausedReason::NeedConnection]
            );
        }
        _ => panic!("not paused"),
    }
}

#[test]
fn happy_path_wraps_around() {
    assert_eq!(happy_path_successor(MiningState::NewTipBlock), Some(MiningState::Init));
    assert_eq!(happy_path_successor(MiningState::Init), Some(MiningState::AwaitBlockProposal));
    assert_eq!(happy_path_successor(MiningState::Paused), None);
}

#[test]
fn new_in_mem_cookies_are_unique() {
    let mut set = std::collections::HashSet::new();
    for _ in 0..50 {
        set.insert(Cookie::new_in_mem());
    }
    assert_eq!(set.len(), 50);
}

#[test]
fn padded_height_text_must_hold_a_u8() {
    assert!(capability_text_is_well_formed("Log2PaddedHeight=255"));
    assert!(!capability_text_is_well_formed("Log2PaddedHeight=256"));
    assert!(!capability_text_is_well_formed("Log2PaddedHeight="));
    assert!(!capability_text_is_well_formed("Log2PaddedHeight=1x"));
    assert!(capability_text_is_well_formed("lockscript"));
    assert!(capability_text_is_well_formed("nonsense"));
}
