//! A builder for transaction proofs.
//!
//! There are different levels of transaction proof, named by
//! [TransactionProofType]. Except for a primitive witness, producing a proof
//! is a heavy job, and the device's [TxProvingCapability] (from the job
//! options) keeps weak devices from attempting proofs they cannot produce.
//!
//! The builder is generic in what it gathers: `D` the transaction's details,
//! `W` a primitive witness and `Q` the job queue. `build` decides which proof
//! is to be made, and from which witness; producing it is the job queue's
//! work.
use vstd::prelude::*;

use crate::network::Network;
use crate::proof_builder::{witness_source_choice, CreateProofError, WitnessSource, WitnessSourceKind};
use crate::triton_vm_job_queue::TritonVmProofJobOptions;
use crate::tx_proving_capability::{
    capability_level, proof_type_number, strongest_proof_type, TransactionProofType,
    TxProvingCapability,
};

verus! {

/// a builder for transaction proofs
///
/// see [module docs](self) for details.
pub struct TransactionProofBuilder<'a, D, W, Q> {
    transaction_details: Option<&'a D>,
    primitive_witness: Option<W>,
    primitive_witness_ref: Option<&'a W>,
    job_queue: Option<Q>,
    proof_job_options: Option<TritonVmProofJobOptions>,
    proof_type: Option<TransactionProofType>,
    valid_mock: Option<bool>,
}

/// The inputs a [`TransactionProofBuilder`] has gathered, as far as the
/// building rules read them.
pub struct TransactionProofBuilderView {
    pub has_transaction_details: bool,
    pub has_primitive_witness: bool,
    pub has_primitive_witness_ref: bool,
    pub has_job_queue: bool,
    pub proof_job_options: Option<TritonVmProofJobOptions>,
    pub proof_type: Option<TransactionProofType>,
    pub valid_mock: Option<bool>,
}

/// What building a transaction proof comes to.
pub enum TransactionProofPlan<'a, D, W, Q> {
    /// Building fails.
    Fail(CreateProofError),
    /// A mock proof of type `proof_type` is the result (a primitive witness
    /// is itself the proof of that type, mock or not).
    Mock { witness: WitnessSource<'a, D, W>, proof_type: TransactionProofType, valid: bool },
    /// A proof of type `proof_type` is to be produced from the witness.
    Produce {
        witness: WitnessSource<'a, D, W>,
        proof_type: TransactionProofType,
        job_queue: Option<Q>,
        proof_job_options: TritonVmProofJobOptions,
    },
}

/// What `build` comes to, as far as the building rules decide it.
pub enum TransactionProofPlanView {
    Fail(CreateProofError),
    Mock { witness: WitnessSourceKind, proof_type: TransactionProofType, valid: bool },
    Produce { witness: WitnessSourceKind, proof_type: TransactionProofType, proof_job_options: TritonVmProofJobOptions },
}

/// The proof type to produce: the one asked for, else the strongest that
/// the capability produces.
pub open spec fn target_proof_type(asked: Option<TransactionProofType>, capability: TxProvingCapability) -> TransactionProofType {
    match asked {
        Some(t) => t,
        None => strongest_proof_type(capability),
    }
}

/// The building rules: job options are needed; then a witness source (see
/// [`witness_source_choice`]) is needed; on a network that mocks proofs a
/// mock proof of the target type comes out, valid unless asked otherwise;
/// otherwise the device must be able to produce the target type, which is
/// then produced.
pub open spec fn transaction_proof_plan_spec(b: TransactionProofBuilderView) -> TransactionProofPlanView {
    match b.proof_job_options {
        None => TransactionProofPlanView::Fail(CreateProofError::MissingRequirement),
        Some(o) => {
            let capability = o.job_settings.tx_proving_capability;
            let proof_type = target_proof_type(b.proof_type, capability);
            match witness_source_choice(
                b.has_primitive_witness,
                b.has_primitive_witness_ref,
                b.has_transaction_details,
            ) {
                None => TransactionProofPlanView::Fail(CreateProofError::MissingRequirement),
                Some(k) => if o.job_settings.network == Network::RegTest {
                    TransactionProofPlanView::Mock {
                        witness: k,
                        proof_type,
                        valid: match b.valid_mock {
                            Some(v) => v,
                            None => true,
                        },
                    }
                } else if capability_level(capability) < proof_type_number(proof_type) {
                    TransactionProofPlanView::Fail(CreateProofError::TooWeak { proof_type, capability })
                } else {
                    TransactionProofPlanView::Produce { witness: k, proof_type, proof_job_options: o }
                },
            }
        },
    }
}

impl<'a, D, W, Q> TransactionProofPlan<'a, D, W, Q> {
    /// The plan as [`transaction_proof_plan_spec`] speaks of it.
    pub open spec fn plan_view(&self) -> TransactionProofPlanView {
        match self {
            TransactionProofPlan::Fail(e) => TransactionProofPlanView::Fail(*e),
            TransactionProofPlan::Mock { witness, proof_type, valid } => TransactionProofPlanView::Mock {
                witness: witness.kind(),
                proof_type: *proof_type,
                valid: *valid,
            },
            TransactionProofPlan::Produce { witness, proof_type, proof_job_options, .. } => {
                TransactionProofPlanView::Produce {
                    witness: witness.kind(),
                    proof_type: *proof_type,
                    proof_job_options: *proof_job_options,
                }
            },
        }
    }
}

impl<'a, D, W, Q> View for TransactionProofBuilder<'a, D, W, Q> {
    type V = TransactionProofBuilderView;

    closed spec fn view(&self) -> TransactionProofBuilderView {
        TransactionProofBuilderView {
            has_transaction_details: self.transaction_details is Some,
            has_primitive_witness: self.primitive_witness is Some,
            has_primitive_witness_ref: self.primitive_witness_ref is Some,
            has_job_queue: self.job_queue is Some,
            proof_job_options: self.proof_job_options,
            proof_type: self.proof_type,
            valid_mock: self.valid_mock,
        }
    }
}

/// The inputs that carry values, which every setter keeps but the one it
/// sets.
pub struct TransactionProofInputs<'a, D, W, Q> {
    pub transaction_details: Option<&'a D>,
    pub primitive_witness: Option<W>,
    pub primitive_witness_ref: Option<&'a W>,
    pub job_queue: Option<Q>,
}

impl<'a, D, W, Q> TransactionProofBuilder<'a, D, W, Q> {
    /// The inputs the builder holds.
    pub closed spec fn inputs(&self) -> TransactionProofInputs<'a, D, W, Q> {
        TransactionProofInputs {
            transaction_details: self.transaction_details,
            primitive_witness: self.primitive_witness,
            primitive_witness_ref: self.primitive_witness_ref,
            job_queue: self.job_queue,
        }
    }

    /// instantiate
    pub fn new() -> (r: Self)
        ensures
            r@ == (TransactionProofBuilderView {
                has_transaction_details: false,
                has_primitive_witness: false,
                has_primitive_witness_ref: false,
                has_job_queue: false,
                proof_job_options: None,
                proof_type: None,
                valid_mock: None,
            }),
    {
        TransactionProofBuilder {
            transaction_details: None,
            primitive_witness: None,
            primitive_witness_ref: None,
            job_queue: None,
            proof_job_options: None,
            proof_type: None,
            valid_mock: None,
        }
    }

    /// add transaction details
    pub fn transaction_details(self, transaction_details: &'a D) -> (r: Self)
        ensures
            r@ == (TransactionProofBuilderView { has_transaction_details: true, ..self@ }),
            r.inputs() == (TransactionProofInputs {
                transaction_details: Some(transaction_details),
                ..self.inputs()
            }),
    {
        let mut b = self;
        b.transaction_details = Some(transaction_details);
        b
    }

    /// add primitive witness
    ///
    /// If not provided, the builder will generate a primitive witness from
    /// the transaction details.
    pub fn primitive_witness(self, witness: W) -> (r: Self)
        ensures
            r@ == (TransactionProofBuilderView { has_primitive_witness: true, ..self@ }),
            r.inputs() == (TransactionProofInputs { primitive_witness: Some(witness), ..self.inputs() }),
    {
        let mut b = self;
        b.primitive_witness = Some(witness);
        b
    }

    /// add primitive witness reference
    pub fn primitive_witness_ref(self, witness: &'a W) -> (r: Self)
        ensures
            r@ == (TransactionProofBuilderView { has_primitive_witness_ref: true, ..self@ }),
            r.inputs() == (TransactionProofInputs { primitive_witness_ref: Some(witness), ..self.inputs() }),
    {
        let mut b = self;
        b.primitive_witness_ref = Some(witness);
        b
    }

    /// add job queue
    pub fn job_queue(self, job_queue: Q) -> (r: Self)
        ensures
            r@ == (TransactionProofBuilderView { has_job_queue: true, ..self@ }),
            r.inputs() == (TransactionProofInputs { job_queue: Some(job_queue), ..self.inputs() }),
    {
        let mut b = self;
        b.job_queue = Some(job_queue);
        b
    }

    /// add job options. (required)
    pub fn proof_job_options(self, proof_job_options: TritonVmProofJobOptions) -> (r: Self)
        ensures
            r@ == (TransactionProofBuilderView { proof_job_options: Some(proof_job_options), ..self@ }),
            r.inputs() == self.inputs(),
    {
        let mut b = self;
        b.proof_job_options = Some(proof_job_options);
        b
    }

    /// specify the target proof type.  (optional)
    ///
    /// if not specified, then builder attempts to generate the
    /// best proof the device is capable of.
    pub fn proof_type(self, proof_type: TransactionProofType) -> (r: Self)
        ensures
            r@ == (TransactionProofBuilderView { proof_type: Some(proof_type), ..self@ }),
            r.inputs() == self.inputs(),
    {
        let mut b = self;
        b.proof_type = Some(proof_type);
        b
    }

    /// create valid or invalid mock proof. (optional)
    ///
    /// default = true
    ///
    /// only applies if the network uses mock proofs, eg regtest.
    pub fn valid_mock(self, valid_mock: bool) -> (r: Self)
        ensures
            r@ == (TransactionProofBuilderView { valid_mock: Some(valid_mock), ..self@ }),
            r.inputs() == self.inputs(),
    {
        let mut b = self;
        b.valid_mock = Some(valid_mock);
        b
    }

    /// Decides what building the transaction proof comes to (see
    /// [`transaction_proof_plan_spec`]); the plan carries the witness source
    /// and the builder's job queue. Where no proof type was asked for, the
    /// target is the strongest type that the device's capability produces,
    /// and a lock-script capability has none: such a build is left out by
    /// `requires`. With a lock-script capability and a target that was asked
    /// for, the build goes ahead: on a network that mocks proofs it comes to
    /// a mock of the target, elsewhere it is refused as too weak, since a
    /// lock-script capability proves no proof type.
    pub fn build(self) -> (r: TransactionProofPlan<'a, D, W, Q>)
        requires
            self@.proof_type is None ==> match self@.proof_job_options {
                Some(o) => !(o.job_settings.tx_proving_capability is LockScript),
                None => true,
            },
        ensures
            r.plan_view() == transaction_proof_plan_spec(self@),
            match r {
                TransactionProofPlan::Mock { witness, .. } => match witness {
                    WitnessSource::Owned(w) => self.inputs().primitive_witness == Some(w),
                    WitnessSource::Borrowed(w) => self.inputs().primitive_witness_ref == Some(w),
                    WitnessSource::FromDetails(d) => self.inputs().transaction_details == Some(d),
                },
                TransactionProofPlan::Produce { witness, job_queue, .. } => {
                    &&& match witness {
                        WitnessSource::Owned(w) => self.inputs().primitive_witness == Some(w),
                        WitnessSource::Borrowed(w) => self.inputs().primitive_witness_ref == Some(w),
                        WitnessSource::FromDetails(d) => self.inputs().transaction_details == Some(d),
                    }
                    &&& job_queue == self.inputs().job_queue
                },
                _ => true,
            },
    {
        let TransactionProofBuilder {
            transaction_details,
            primitive_witness,
            primitive_witness_ref,
            job_queue,
            proof_job_options,
            valid_mock,
            proof_type,
        } = self;
        let proof_job_options = match proof_job_options {
            Some(o) => o,
            None => {
                return TransactionProofPlan::Fail(CreateProofError::MissingRequirement);
            },
        };
        let capability = proof_job_options.job_settings.tx_proving_capability;
        let proof_type = match proof_type {
            Some(t) => t,
            None => TransactionProofType::from_capability(capability),
        };
        let valid_mock = match valid_mock {
            Some(v) => v,
            None => true,
        };
        let witness = match primitive_witness {
            Some(w) => WitnessSource::Owned(w),
            None => match primitive_witness_ref {
                Some(w) => WitnessSource::Borrowed(w),
                None => match transaction_details {
                    Some(d) => WitnessSource::FromDetails(d),
                    None => {
                        return TransactionProofPlan::Fail(CreateProofError::MissingRequirement);
                    },
                },
            },
        };
        if proof_job_options.job_settings.network.use_mock_proof() {
            return TransactionProofPlan::Mock { witness, proof_type, valid: valid_mock };
        }
        if !capability.can_prove(proof_type) {
            return TransactionProofPlan::Fail(CreateProofError::TooWeak { proof_type, capability });
        }
        TransactionProofPlan::Produce { witness, proof_type, job_queue, proof_job_options }
    }
}

/// A build that asks for no particular proof type is never refused as too
/// weak: it targets the strongest type the device's capability produces.
pub proof fn lemma_default_type_never_too_weak(b: TransactionProofBuilderView)
    requires
        b.proof_type is None,
        b.proof_job_options matches Some(o) ==> !(o.job_settings.tx_proving_capability is LockScript),
    ensures
        !(transaction_proof_plan_spec(b) matches TransactionProofPlanView::Fail(CreateProofError::TooWeak { .. })),
{
}

/// A build that targets a primitive witness and has job options and a
/// witness source comes to that witness as the proof, mock or not; it is
/// refused as too weak only for a lock-script capability on a network that
/// does not mock proofs.
pub proof fn lemma_witness_target_yields_witness(b: TransactionProofBuilderView)
    requires
        b.proof_type == Some(TransactionProofType::PrimitiveWitness),
        b.proof_job_options is Some,
        witness_source_choice(b.has_primitive_witness, b.has_primitive_witness_ref, b.has_transaction_details) is Some,
    ensures
        match transaction_proof_plan_spec(b) {
            TransactionProofPlanView::Mock { proof_type, .. } => proof_type == TransactionProofType::PrimitiveWitness,
            TransactionProofPlanView::Produce { proof_type, .. } => proof_type == TransactionProofType::PrimitiveWitness,
            TransactionProofPlanView::Fail(e) => {
                &&& e == (CreateProofError::TooWeak {
                    proof_type: TransactionProofType::PrimitiveWitness,
                    capability: TxProvingCapability::LockScript,
                })
                &&& b.proof_job_options->0.job_settings.network != Network::RegTest
            },
        },
{
}

/// On a network that mocks proofs, a build with job options and a witness
/// source comes to a mock proof of the target type, which is valid unless an
/// invalid one was asked for.
pub proof fn lemma_mock_is_valid_by_default(b: TransactionProofBuilderView)
    requires
        b.proof_job_options matches Some(o) && o.job_settings.network == Network::RegTest,
        witness_source_choice(b.has_primitive_witness, b.has_primitive_witness_ref, b.has_transaction_details) is Some,
    ensures
        transaction_proof_plan_spec(b) matches TransactionProofPlanView::Mock { valid, .. } && valid == (b.valid_mock
            != Some(false)),
{
}

} // verus!
