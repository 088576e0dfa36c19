# neptune_core

Verified building blocks of a Neptune node, written in Verus.

- `mining_status`, `mining_state_machine`: the mining states, the status
  data each carries, and two state machines that move between them on mining
  events (pause and unpause for several reasons, the happy path of composing
  and guessing, strict or lenient handling of refused transitions).
- `key_iter`, `known_keys`, `spending_key_range`: iteration over the child
  keys of a spending key, from both ends, and splitting a range for parallel
  work.
- `tx_proving_capability`, `proof_builder`, `single_proof_builder`,
  `transaction_proof_builder`, `triton_vm_job_queue`, `network`: what a device
  can prove, and the decisions of the proof builders (fail, mock, or hand a
  proving job to the queue).
- `transaction_params`, `blockchain_state`, `wallet_database`, `rpc_auth`,
  `rpc_server`, `cli_support`, `digest`, `job_queue`, `expected_utxo`: smaller
  value types and rules of the node.
- `clock`, `text`, `seq_util`, `vm`: the clock, string building, sequence
  helpers, and the Triton VM items the proving logic carries.

`app/` holds what cannot be verified: serde and clap copies of library
types, rayon's parallel-iterator traits, the RPC cookie file and the files of
off-chain UTXO transfers.
