//! A builder for transaction single-proofs.
//!
//! The builder must know the device's [TxProvingCapability] (from the job
//! options) so that weak devices do not attempt proofs they cannot produce.
//! Before a transaction can be confirmed in a block it must have a single
//! proof, the hardest proof to produce.
//!
//! The builder is generic in what it gathers: `D` the transaction's details,
//! `W` a primitive witness, `PC` a proof collection, `SW` a single-proof
//! witness and `Q` the job queue. `build` decides which of them the proof is
//! made from; the proving is the job queue's work.
use vstd::prelude::*;

use crate::network::Network;
use crate::proof_builder::{
    witness_source_choice, CreateProofError, ProofBuilder, ProofBuilderView, WitnessSource, WitnessSourceKind,
};
use crate::triton_vm_job_queue::TritonVmProofJobOptions;
use crate::tx_proving_capability::{
    capability_level, proof_type_number, TransactionProofType, TxProvingCapability,
};

verus! {

/// a builder for single proofs
///
/// see [module docs](self) for details.
pub struct SingleProofBuilder<'a, D, W, PC, SW, Q> {
    transaction_details: Option<&'a D>,
    primitive_witness: Option<W>,
    primitive_witness_ref: Option<&'a W>,
    proof_collection: Option<PC>,
    single_proof_witness: Option<&'a SW>,
    claim_and_nondeterminism: Option<(triton_vm::prelude::Claim, triton_vm::prelude::NonDeterminism)>,
    job_queue: Option<Q>,
    proof_job_options: Option<TritonVmProofJobOptions>,
    valid_mock: Option<bool>,
}

/// The inputs a [`SingleProofBuilder`] has gathered, as far as the building
/// rules read them.
pub struct SingleProofBuilderView {
    pub has_transaction_details: bool,
    pub has_primitive_witness: bool,
    pub has_primitive_witness_ref: bool,
    pub has_proof_collection: bool,
    pub has_single_proof_witness: bool,
    pub has_claim_and_nondeterminism: bool,
    pub has_job_queue: bool,
    pub proof_job_options: Option<TritonVmProofJobOptions>,
    pub valid_mock: Option<bool>,
}

/// What building a single proof comes to.
pub enum SingleProofPlan<'a, D, W, PC, SW, Q> {
    /// Building fails.
    Fail(CreateProofError),
    /// A mock single proof, valid or not, is the result.
    Mock { valid: bool },
    /// The single-proof program is to be proved for this claim and secret
    /// input.
    ProveClaim {
        claim: triton_vm::prelude::Claim,
        nondeterminism: triton_vm::prelude::NonDeterminism,
        job_queue: Option<Q>,
        proof_job_options: TritonVmProofJobOptions,
    },
    /// The single-proof program is to be proved for the claim and secret
    /// input of this witness.
    ProveWitness { single_proof_witness: &'a SW, job_queue: Option<Q>, proof_job_options: TritonVmProofJobOptions },
    /// The single-proof program is to be proved for the witness made from
    /// this proof collection.
    ProveCollection { proof_collection: PC, job_queue: Option<Q>, proof_job_options: TritonVmProofJobOptions },
    /// A single proof is to be produced from this primitive witness.
    ProduceFromPrimitive {
        witness: WitnessSource<'a, D, W>,
        job_queue: Option<Q>,
        proof_job_options: TritonVmProofJobOptions,
    },
}

/// What `build` comes to, as far as the building rules decide it.
pub enum SingleProofPlanView {
    Fail(CreateProofError),
    Mock { valid: bool },
    ProveClaim(TritonVmProofJobOptions),
    ProveWitness(TritonVmProofJobOptions),
    ProveCollection(TritonVmProofJobOptions),
    ProduceFromPrimitive(WitnessSourceKind, TritonVmProofJobOptions),
}

/// The building rules: job options are needed; on a network that mocks
/// proofs a mock proof comes out, valid unless asked otherwise; the device
/// must be able to produce a single proof; then the proof is made from the
/// claim and secret input if given, else from the single-proof witness, else
/// from the proof collection, else from a primitive witness (see
/// [`witness_source_choice`]); with none of these the build fails.
pub open spec fn single_proof_plan_spec(b: SingleProofBuilderView) -> SingleProofPlanView {
    match b.proof_job_options {
        None => SingleProofPlanView::Fail(CreateProofError::MissingRequirement),
        Some(o) => if o.job_settings.network == Network::RegTest {
            SingleProofPlanView::Mock {
                valid: match b.valid_mock {
                    Some(v) => v,
                    None => true,
                },
            }
        } else if capability_level(o.job_settings.tx_proving_capability) < proof_type_number(
            TransactionProofType::SingleProof,
        ) {
            SingleProofPlanView::Fail(
                CreateProofError::TooWeak {
                    proof_type: TransactionProofType::SingleProof,
                    capability: o.job_settings.tx_proving_capability,
                },
            )
        } else if b.has_claim_and_nondeterminism {
            SingleProofPlanView::ProveClaim(o)
        } else if b.has_single_proof_witness {
            SingleProofPlanView::ProveWitness(o)
        } else if b.has_proof_collection {
            SingleProofPlanView::ProveCollection(o)
        } else {
            match witness_source_choice(
                b.has_primitive_witness,
                b.has_primitive_witness_ref,
                b.has_transaction_details,
            ) {
                Some(k) => SingleProofPlanView::ProduceFromPrimitive(k, o),
                None => SingleProofPlanView::Fail(CreateProofError::MissingRequirement),
            }
        },
    }
}

impl<'a, D, W, PC, SW, Q> SingleProofPlan<'a, D, W, PC, SW, Q> {
    /// The plan as [`single_proof_plan_spec`] speaks of it.
    pub open spec fn plan_view(&self) -> SingleProofPlanView {
        match self {
            SingleProofPlan::Fail(e) => SingleProofPlanView::Fail(*e),
            SingleProofPlan::Mock { valid } => SingleProofPlanView::Mock { valid: *valid },
            SingleProofPlan::ProveClaim { proof_job_options, .. } => SingleProofPlanView::ProveClaim(
                *proof_job_options,
            ),
            SingleProofPlan::ProveWitness { proof_job_options, .. } => SingleProofPlanView::ProveWitness(
                *proof_job_options,
            ),
            SingleProofPlan::ProveCollection { proof_job_options, .. } => {
                SingleProofPlanView::ProveCollection(*proof_job_options)
            },
            SingleProofPlan::ProduceFromPrimitive { witness, proof_job_options, .. } => {
                SingleProofPlanView::ProduceFromPrimitive(witness.kind(), *proof_job_options)
            },
        }
    }
}

impl<'a, D, W, PC, SW, Q> View for SingleProofBuilder<'a, D, W, PC, SW, Q> {
    type V = SingleProofBuilderView;

    closed spec fn view(&self) -> SingleProofBuilderView {
        SingleProofBuilderView {
            has_transaction_details: self.transaction_details is Some,
            has_primitive_witness: self.primitive_witness is Some,
            has_primitive_witness_ref: self.primitive_witness_ref is Some,
            has_proof_collection: self.proof_collection is Some,
            has_single_proof_witness: self.single_proof_witness is Some,
            has_claim_and_nondeterminism: self.claim_and_nondeterminism is Some,
            has_job_queue: self.job_queue is Some,
            proof_job_options: self.proof_job_options,
            valid_mock: self.valid_mock,
        }
    }
}

/// The inputs that carry values, which every setter keeps but the one it
/// sets.
pub struct SingleProofInputs<'a, D, W, PC, SW, Q> {
    pub transaction_details: Option<&'a D>,
    pub primitive_witness: Option<W>,
    pub primitive_witness_ref: Option<&'a W>,
    pub proof_collection: Option<PC>,
    pub single_proof_witness: Option<&'a SW>,
    pub claim_and_nondeterminism: Option<(triton_vm::prelude::Claim, triton_vm::prelude::NonDeterminism)>,
    pub job_queue: Option<Q>,
}

impl<'a, D, W, PC, SW, Q> SingleProofBuilder<'a, D, W, PC, SW, Q> {
    /// The inputs the builder holds.
    pub closed spec fn inputs(&self) -> SingleProofInputs<'a, D, W, PC, SW, Q> {
        SingleProofInputs {
            transaction_details: self.transaction_details,
            primitive_witness: self.primitive_witness,
            primitive_witness_ref: self.primitive_witness_ref,
            proof_collection: self.proof_collection,
            single_proof_witness: self.single_proof_witness,
            claim_and_nondeterminism: self.claim_and_nondeterminism,
            job_queue: self.job_queue,
        }
    }

    /// instantiate
    pub fn new() -> (r: Self)
        ensures
            r@ == (SingleProofBuilderView {
                has_transaction_details: false,
                has_primitive_witness: false,
                has_primitive_witness_ref: false,
                has_proof_collection: false,
                has_single_proof_witness: false,
                has_claim_and_nondeterminism: false,
                has_job_queue: false,
                proof_job_options: None,
                valid_mock: None,
            }),
    {
        SingleProofBuilder {
            transaction_details: None,
            primitive_witness: None,
            primitive_witness_ref: None,
            proof_collection: None,
            single_proof_witness: None,
            claim_and_nondeterminism: None,
            job_queue: None,
            proof_job_options: None,
            valid_mock: None,
        }
    }

    /// add transaction details
    pub fn transaction_details(self, transaction_details: &'a D) -> (r: Self)
        ensures
            r@ == (SingleProofBuilderView { has_transaction_details: true, ..self@ }),
            r.inputs() == (SingleProofInputs { transaction_details: Some(transaction_details), ..self.inputs() }),
    {
        let mut b = self;
        b.transaction_details = Some(transaction_details);
        b
    }

    /// add proof collection
    pub fn proof_collection(self, proof_collection: PC) -> (r: Self)
        ensures
            r@ == (SingleProofBuilderView { has_proof_collection: true, ..self@ }),
            r.inputs() == (SingleProofInputs { proof_collection: Some(proof_collection), ..self.inputs() }),
    {
        let mut b = self;
        b.proof_collection = Some(proof_collection);
        b
    }

    /// add single proof witness
    pub fn single_proof_witness(self, single_proof_witness: &'a SW) -> (r: Self)
        ensures
            r@ == (SingleProofBuilderView { has_single_proof_witness: true, ..self@ }),
            r.inputs() == (SingleProofInputs {
                single_proof_witness: Some(single_proof_witness),
                ..self.inputs()
            }),
    {
        let mut b = self;
        b.single_proof_witness = Some(single_proof_witness);
        b
    }

    /// add claim and non-determinism
    pub fn claim_and_nondeterminism(
        self,
        claim_and_nondeterminism: (triton_vm::prelude::Claim, triton_vm::prelude::NonDeterminism),
    ) -> (r: Self)
        ensures
            r@ == (SingleProofBuilderView { has_claim_and_nondeterminism: true, ..self@ }),
            r.inputs() == (SingleProofInputs {
                claim_and_nondeterminism: Some(claim_and_nondeterminism),
                ..self.inputs()
            }),
    {
        let mut b = self;
        b.claim_and_nondeterminism = Some(claim_and_nondeterminism);
        b
    }

    /// add primitive witness
    ///
    /// If not provided, the builder will generate a primitive witness from
    /// the transaction details.
    pub fn primitive_witness(self, witness: W) -> (r: Self)
        ensures
            r@ == (SingleProofBuilderView { has_primitive_witness: true, ..self@ }),
            r.inputs() == (SingleProofInputs { primitive_witness: Some(witness), ..self.inputs() }),
    {
        let mut b = self;
        b.primitive_witness = Some(witness);
        b
    }

    /// add primitive witness reference
    pub fn primitive_witness_ref(self, witness: &'a W) -> (r: Self)
        ensures
            r@ == (SingleProofBuilderView { has_primitive_witness_ref: true, ..self@ }),
            r.inputs() == (SingleProofInputs { primitive_witness_ref: Some(witness), ..self.inputs() }),
    {
        let mut b = self;
        b.primitive_witness_ref = Some(witness);
        b
    }

    /// add job queue
    pub fn job_queue(self, job_queue: Q) -> (r: Self)
        ensures
            r@ == (SingleProofBuilderView { has_job_queue: true, ..self@ }),
            r.inputs() == (SingleProofInputs { job_queue: Some(job_queue), ..self.inputs() }),
    {
        let mut b = self;
        b.job_queue = Some(job_queue);
        b
    }

    /// add job options. (required)
    pub fn proof_job_options(self, proof_job_options: TritonVmProofJobOptions) -> (r: Self)
        ensures
            r@ == (SingleProofBuilderView { proof_job_options: Some(proof_job_options), ..self@ }),
            r.inputs() == self.inputs(),
    {
        let mut b = self;
        b.proof_job_options = Some(proof_job_options);
        b
    }

    /// create valid or invalid mock proof. (optional)
    ///
    /// default = true
    ///
    /// only applies if the network uses mock proofs, eg regtest.
    pub fn valid_mock(self, valid_mock: bool) -> (r: Self)
        ensures
            r@ == (SingleProofBuilderView { valid_mock: Some(valid_mock), ..self@ }),
            r.inputs() == self.inputs(),
    {
        let mut b = self;
        b.valid_mock = Some(valid_mock);
        b
    }

    /// Decides what building the single proof comes to (see
    /// [`single_proof_plan_spec`]); the plan carries the input it is made
    /// from and the builder's job queue.
    pub fn build(self) -> (r: SingleProofPlan<'a, D, W, PC, SW, Q>)
        ensures
            r.plan_view() == single_proof_plan_spec(self@),
            match r {
                SingleProofPlan::ProveClaim { claim, nondeterminism, job_queue, .. } => {
                    &&& self.inputs().claim_and_nondeterminism == Some((claim, nondeterminism))
                    &&& job_queue == self.inputs().job_queue
                },
                SingleProofPlan::ProveWitness { single_proof_witness, job_queue, .. } => {
                    &&& self.inputs().single_proof_witness == Some(single_proof_witness)
                    &&& job_queue == self.inputs().job_queue
                },
                SingleProofPlan::ProveCollection { proof_collection, job_queue, .. } => {
                    &&& self.inputs().proof_collection == Some(proof_collection)
                    &&& job_queue == self.inputs().job_queue
                },
                SingleProofPlan::ProduceFromPrimitive { witness, job_queue, .. } => {
                    &&& match witness {
                        WitnessSource::Owned(w) => self.inputs().primitive_witness == Some(w),
                        WitnessSource::Borrowed(w) => self.inputs().primitive_witness_ref == Some(w),
                        WitnessSource::FromDetails(d) => self.inputs().transaction_details == Some(d),
                    }
                    &&& job_queue == self.inputs().job_queue
                },
                _ => true,
            },
    {
        let SingleProofBuilder {
            transaction_details,
            primitive_witness,
            primitive_witness_ref,
            proof_collection,
            single_proof_witness,
            claim_and_nondeterminism,
            job_queue,
            proof_job_options,
            valid_mock,
        } = self;
        let proof_job_options = match proof_job_options {
            Some(o) => o,
            None => {
                return SingleProofPlan::Fail(CreateProofError::MissingRequirement);
            },
        };
        if proof_job_options.job_settings.network.use_mock_proof() {
            let valid = match valid_mock {
                Some(v) => v,
                None => true,
            };
            return SingleProofPlan::Mock { valid };
        }
        let capability = proof_job_options.job_settings.tx_proving_capability;
        let proof_type = TransactionProofType::SingleProof;
        if !capability.can_prove(proof_type) {
            return SingleProofPlan::Fail(CreateProofError::TooWeak { proof_type, capability });
        }
        match claim_and_nondeterminism {
            Some((claim, nondeterminism)) => SingleProofPlan::ProveClaim {
                claim,
                nondeterminism,
                job_queue,
                proof_job_options,
            },
            None => match single_proof_witness {
                Some(w) => SingleProofPlan::ProveWitness { single_proof_witness: w, job_queue, proof_job_options },
                None => match proof_collection {
                    Some(pc) => SingleProofPlan::ProveCollection {
                        proof_collection: pc,
                        job_queue,
                        proof_job_options,
                    },
                    None => match primitive_witness {
                        Some(w) => SingleProofPlan::ProduceFromPrimitive {
                            witness: WitnessSource::Owned(w),
                            job_queue,
                            proof_job_options,
                        },
                        None => match primitive_witness_ref {
                            Some(w) => SingleProofPlan::ProduceFromPrimitive {
                                witness: WitnessSource::Borrowed(w),
                                job_queue,
                                proof_job_options,
                            },
                            None => match transaction_details {
                                Some(d) => SingleProofPlan::ProduceFromPrimitive {
                                    witness: WitnessSource::FromDetails(d),
                                    job_queue,
                                    proof_job_options,
                                },
                                None => SingleProofPlan::Fail(CreateProofError::MissingRequirement),
                            },
                        },
                    },
                },
            },
        }
    }
}

/// The proof builder that proves the single-proof program `program` for a
/// claim and its secret input, in the given job queue with the given
/// options.
pub fn prove_single_proof_builder<Q>(
    program: triton_vm::prelude::Program,
    claim: triton_vm::prelude::Claim,
    nondeterminism: triton_vm::prelude::NonDeterminism,
    job_queue: Option<Q>,
    proof_job_options: TritonVmProofJobOptions,
) -> (r: ProofBuilder<Q>)
    ensures
        r@ == (ProofBuilderView {
            has_program: true,
            has_claim: true,
            has_nondeterminism: true,
            has_job_queue: job_queue is Some,
            proof_job_options,
            tx_proving_capability: None,
            valid_mock: None,
            suppress_capability_warning: false,
        }),
        r.program_spec() == Some(program),
        r.claim_spec() == Some(claim),
        r.nondeterminism_spec() == Some(nondeterminism),
        r.job_queue_spec() == job_queue,
{
    let b = ProofBuilder::new().program(program).claim(claim).nondeterminism(nondeterminism);
    let b = match job_queue {
        Some(q) => b.job_queue(q),
        None => b,
    };
    b.proof_job_options(proof_job_options)
}

/// On a network that mocks proofs, a build with job options comes to a mock
/// single proof, which is valid unless an invalid one was asked for, whatever
/// witness the builder holds.
pub proof fn lemma_mock_is_valid_by_default(b: SingleProofBuilderView)
    requires
        b.proof_job_options matches Some(o) && o.job_settings.network == Network::RegTest,
    ensures
        b.valid_mock is None ==> single_proof_plan_spec(b) == (SingleProofPlanView::Mock { valid: true }),
        b.valid_mock == Some(false) ==> single_proof_plan_spec(b) == (SingleProofPlanView::Mock { valid: false }),
        b.valid_mock == Some(true) ==> single_proof_plan_spec(b) == (SingleProofPlanView::Mock { valid: true }),
{
}

/// Off a network that mocks proofs, only a device that produces single proofs
/// gets further than the capability check: with any other capability `c`,
/// the build fails as too weak for a single proof, naming `c`.
pub proof fn lemma_only_single_proof_devices_prove(b: SingleProofBuilderView)
    requires
        b.proof_job_options matches Some(o) && o.job_settings.network != Network::RegTest,
    ensures
        ({
            let c = b.proof_job_options->0.job_settings.tx_proving_capability;
            c != TxProvingCapability::SingleProof ==> single_proof_plan_spec(b) == SingleProofPlanView::Fail(
                CreateProofError::TooWeak { proof_type: TransactionProofType::SingleProof, capability: c },
            )
        }),
        ({
            let c = b.proof_job_options->0.job_settings.tx_proving_capability;
            c == TxProvingCapability::SingleProof ==> !(single_proof_plan_spec(b) matches SingleProofPlanView::Fail(
                CreateProofError::TooWeak { .. },
            ))
        }),
{
}

/// Without job options the build fails for a missing requirement. Off a
/// network that mocks proofs, a device that produces single proofs proves
/// from the first source it holds, in this order: a claim with its secret
/// input, a single-proof witness, a proof collection, a primitive witness by
/// value, one by reference, the transaction's details; with none of them the
/// build fails for a missing requirement.
pub proof fn lemma_single_proof_source_order(b: SingleProofBuilderView)
    ensures
        b.proof_job_options is None ==> single_proof_plan_spec(b) == SingleProofPlanView::Fail(
            CreateProofError::MissingRequirement,
        ),
        ({
            let o = b.proof_job_options->0;
            b.proof_job_options is Some && o.job_settings.network != Network::RegTest
                && o.job_settings.tx_proving_capability == TxProvingCapability::SingleProof ==> single_proof_plan_spec(b) == (
            if b.has_claim_and_nondeterminism {
                SingleProofPlanView::ProveClaim(o)
            } else if b.has_single_proof_witness {
                SingleProofPlanView::ProveWitness(o)
            } else if b.has_proof_collection {
                SingleProofPlanView::ProveCollection(o)
            } else if b.has_primitive_witness {
                SingleProofPlanView::ProduceFromPrimitive(WitnessSourceKind::Owned, o)
            } else if b.has_primitive_witness_ref {
                SingleProofPlanView::ProduceFromPrimitive(WitnessSourceKind::Borrowed, o)
            } else if b.has_transaction_details {
                SingleProofPlanView::ProduceFromPrimitive(WitnessSourceKind::FromDetails, o)
            } else {
                SingleProofPlanView::Fail(CreateProofError::MissingRequirement)
            })
        }),
{
}

} // verus!
