//! Mining state machines, wallet key iteration, proof-builder planning and
//! related value types of a Neptune node.
pub mod clock;
pub mod seq_util;
pub mod text;
pub mod mining_status;
pub mod mining_state_machine;
pub mod key_iter;
pub mod known_keys;
pub mod spending_key_range;
pub mod vm;
pub mod tx_proving_capability;
pub mod network;
pub mod triton_vm_job_queue;
pub mod proof_builder;
pub mod single_proof_builder;
pub mod transaction_proof_builder;
pub mod transaction_params;
pub mod blockchain_state;
pub mod wallet_database;
pub mod rpc_auth;
pub mod cli_support;
pub mod expected_utxo;
pub mod job_queue;
pub mod digest;
pub mod rpc_server;
