//! A builder for Neptune proofs, which are mockable Triton VM proofs.
//!
//! The builder gathers a program, a claim and its secret input, the job
//! queue and options of the proving job, and the device's proving capability.
//! `build` decides what is to be done: fail, return a mock proof (on a
//! network that mocks proofs), or prove the claim in the job queue. The
//! proving itself is the queue's work.
use vstd::prelude::*;

use crate::triton_vm_job_queue::{default_job_options, TritonVmProofJobOptions};
use crate::tx_proving_capability::{
    capability_level, proof_type_number, TransactionProofType, TxProvingCapability,
};

verus! {

/// Why a proof could not be built.
#[derive(Debug, Clone, Copy, PartialEq, Eq, Structural)]
pub enum CreateProofError {
    /// An input the proof needs was not supplied.
    MissingRequirement,
    /// The device cannot produce a proof of the type asked for.
    TooWeak { proof_type: TransactionProofType, capability: TxProvingCapability },
}

/// What building a proof comes to.
pub enum ProofBuildPlan<Q> {
    /// Building fails.
    Fail(CreateProofError),
    /// A mock proof, valid or not, is the result.
    Mock { valid: bool },
    /// The claim is to be proved in the job queue (the default queue where
    /// none was given). `warn_missing_capability` asks for a warning that no
    /// capability was given, so proving might fail.
    Prove {
        program: triton_vm::prelude::Program,
        claim: triton_vm::prelude::Claim,
        nondeterminism: triton_vm::prelude::NonDeterminism,
        job_queue: Option<Q>,
        proof_job_options: TritonVmProofJobOptions,
        warn_missing_capability: bool,
    },
}

/// a builder for proofs
///
/// see [module docs](self) for details.
pub struct ProofBuilder<Q> {
    program: Option<triton_vm::prelude::Program>,
    claim: Option<triton_vm::prelude::Claim>,
    nondeterminism: Option<triton_vm::prelude::NonDeterminism>,
    job_queue: Option<Q>,
    proof_job_options: TritonVmProofJobOptions,
    tx_proving_capability: Option<TxProvingCapability>,
    valid_mock: Option<bool>,
    suppress_capability_warning: bool,
}

/// The inputs a [`ProofBuilder`] has gathered, as far as the building rules
/// read them.
pub struct ProofBuilderView {
    pub has_program: bool,
    pub has_claim: bool,
    pub has_nondeterminism: bool,
    pub has_job_queue: bool,
    pub proof_job_options: TritonVmProofJobOptions,
    pub tx_proving_capability: Option<TxProvingCapability>,
    pub valid_mock: Option<bool>,
    pub suppress_capability_warning: bool,
}

/// What `build` comes to: the outcome's kind, and for a proving job the
/// options and whether to warn.
pub enum ProofPlanView {
    Fail(CreateProofError),
    Mock { valid: bool },
    Prove { proof_job_options: TritonVmProofJobOptions, warn_missing_capability: bool },
}

/// The building rules: all of program, claim and secret input are needed;
/// on a network that mocks proofs a mock proof comes out, valid unless asked
/// otherwise; a capability that was given must reach a single proof; with no
/// capability given, a warning is due unless suppressed.
pub open spec fn proof_plan_spec(b: ProofBuilderView) -> ProofPlanView {
    if !(b.has_program && b.has_claim && b.has_nondeterminism) {
        ProofPlanView::Fail(CreateProofError::MissingRequirement)
    } else if b.proof_job_options.job_settings.network == crate::network::Network::RegTest {
        ProofPlanView::Mock {
            valid: match b.valid_mock {
                Some(v) => v,
                None => true,
            },
        }
    } else {
        match b.tx_proving_capability {
            Some(c) => if capability_level(c) < proof_type_number(TransactionProofType::SingleProof) {
                ProofPlanView::Fail(
                    CreateProofError::TooWeak {
                        proof_type: TransactionProofType::SingleProof,
                        capability: c,
                    },
                )
            } else {
                ProofPlanView::Prove {
                    proof_job_options: b.proof_job_options,
                    warn_missing_capability: false,
                }
            },
            None => ProofPlanView::Prove {
                proof_job_options: b.proof_job_options,
                warn_missing_capability: !b.suppress_capability_warning,
            },
        }
    }
}

impl<Q> ProofBuildPlan<Q> {
    /// The plan as [`proof_plan_spec`] speaks of it.
    pub open spec fn plan_view(&self) -> ProofPlanView {
        match self {
            ProofBuildPlan::Fail(e) => ProofPlanView::Fail(*e),
            ProofBuildPlan::Mock { valid } => ProofPlanView::Mock { valid: *valid },
            ProofBuildPlan::Prove { proof_job_options, warn_missing_capability, .. } => {
                ProofPlanView::Prove {
                    proof_job_options: *proof_job_options,
                    warn_missing_capability: *warn_missing_capability,
                }
            },
        }
    }
}

impl<Q> View for ProofBuilder<Q> {
    type V = ProofBuilderView;

    closed spec fn view(&self) -> ProofBuilderView {
        ProofBuilderView {
            has_program: self.program is Some,
            has_claim: self.claim is Some,
            has_nondeterminism: self.nondeterminism is Some,
            has_job_queue: self.job_queue is Some,
            proof_job_options: self.proof_job_options,
            tx_proving_capability: self.tx_proving_capability,
            valid_mock: self.valid_mock,
            suppress_capability_warning: self.suppress_capability_warning,
        }
    }
}

impl<Q> ProofBuilder<Q> {
    /// The program the builder holds, if any.
    pub closed spec fn program_spec(&self) -> Option<triton_vm::prelude::Program> {
        self.program
    }

    /// The claim the builder holds, if any.
    pub closed spec fn claim_spec(&self) -> Option<triton_vm::prelude::Claim> {
        self.claim
    }

    /// The secret input the builder holds, if any.
    pub closed spec fn nondeterminism_spec(&self) -> Option<triton_vm::prelude::NonDeterminism> {
        self.nondeterminism
    }

    /// The job queue the builder holds, if any.
    pub closed spec fn job_queue_spec(&self) -> Option<Q> {
        self.job_queue
    }

    /// instantiate
    pub fn new() -> (r: Self)
        ensures
            r@ == (ProofBuilderView {
                has_program: false,
                has_claim: false,
                has_nondeterminism: false,
                has_job_queue: false,
                proof_job_options: r@.proof_job_options,
                tx_proving_capability: None,
                valid_mock: None,
                suppress_capability_warning: false,
            }),
            r@.proof_job_options == default_job_options(),
            r.program_spec() == None::<triton_vm::prelude::Program>,
            r.claim_spec() == None::<triton_vm::prelude::Claim>,
            r.nondeterminism_spec() == None::<triton_vm::prelude::NonDeterminism>,
            r.job_queue_spec() == None::<Q>,
    {
        ProofBuilder {
            program: None,
            claim: None,
            nondeterminism: None,
            job_queue: None,
            proof_job_options: TritonVmProofJobOptions::default(),
            tx_proving_capability: None,
            valid_mock: None,
            suppress_capability_warning: false,
        }
    }

    /// add program
    pub fn program(self, program: triton_vm::prelude::Program) -> (r: Self)
        ensures
            r@ == (ProofBuilderView { has_program: true, ..self@ }),
            r.program_spec() == Some(program),
            r.claim_spec() == self.claim_spec(),
            r.nondeterminism_spec() == self.nondeterminism_spec(),
            r.job_queue_spec() == self.job_queue_spec(),
    {
        let mut b = self;
        b.program = Some(program);
        b
    }

    /// add claim
    pub fn claim(self, claim: triton_vm::prelude::Claim) -> (r: Self)
        ensures
            r@ == (ProofBuilderView { has_claim: true, ..self@ }),
            r.program_spec() == self.program_spec(),
            r.claim_spec() == Some(claim),
            r.nondeterminism_spec() == self.nondeterminism_spec(),
            r.job_queue_spec() == self.job_queue_spec(),
    {
        let mut b = self;
        b.claim = Some(claim);
        b
    }

    /// add nondeterminism
    pub fn nondeterminism(self, nondeterminism: triton_vm::prelude::NonDeterminism) -> (r: Self)
        ensures
            r@ == (ProofBuilderView { has_nondeterminism: true, ..self@ }),
            r.program_spec() == self.program_spec(),
            r.claim_spec() == self.claim_spec(),
            r.nondeterminism_spec() == Some(nondeterminism),
            r.job_queue_spec() == self.job_queue_spec(),
    {
        let mut b = self;
        b.nondeterminism = Some(nondeterminism);
        b
    }

    /// add job queue
    pub fn job_queue(self, job_queue: Q) -> (r: Self)
        ensures
            r@ == (ProofBuilderView { has_job_queue: true, ..self@ }),
            r.program_spec() == self.program_spec(),
            r.claim_spec() == self.claim_spec(),
            r.nondeterminism_spec() == self.nondeterminism_spec(),
            r.job_queue_spec() == Some(job_queue),
    {
        let mut b = self;
        b.job_queue = Some(job_queue);
        b
    }

    /// add job options. (optional)
    pub fn proof_job_options(self, proof_job_options: TritonVmProofJobOptions) -> (r: Self)
        ensures
            r@ == (ProofBuilderView { proof_job_options, ..self@ }),
            r.program_spec() == self.program_spec(),
            r.claim_spec() == self.claim_spec(),
            r.nondeterminism_spec() == self.nondeterminism_spec(),
            r.job_queue_spec() == self.job_queue_spec(),
    {
        let mut b = self;
        b.proof_job_options = proof_job_options;
        b
    }

    /// specify the device's proving capability.  (optional)
    pub fn tx_proving_capability(self, tx_proving_capability: TxProvingCapability) -> (r: Self)
        ensures
            r@ == (ProofBuilderView { tx_proving_capability: Some(tx_proving_capability), ..self@ }),
            r.program_spec() == self.program_spec(),
            r.claim_spec() == self.claim_spec(),
            r.nondeterminism_spec() == self.nondeterminism_spec(),
            r.job_queue_spec() == self.job_queue_spec(),
    {
        let mut b = self;
        b.tx_proving_capability = Some(tx_proving_capability);
        b
    }

    /// specify the device's proving capability, or that it is unknown.
    /// (optional)
    pub fn tx_proving_capability_option(self, tx_proving_capability: Option<TxProvingCapability>) -> (r: Self)
        ensures
            r@ == (ProofBuilderView { tx_proving_capability, ..self@ }),
            r.program_spec() == self.program_spec(),
            r.claim_spec() == self.claim_spec(),
            r.nondeterminism_spec() == self.nondeterminism_spec(),
            r.job_queue_spec() == self.job_queue_spec(),
    {
        let mut b = self;
        b.tx_proving_capability = tx_proving_capability;
        b
    }

    /// suppress warning if proving capability is not supplied.
    pub fn suppress_capability_warning(self) -> (r: Self)
        ensures
            r@ == (ProofBuilderView { suppress_capability_warning: true, ..self@ }),
            r.program_spec() == self.program_spec(),
            r.claim_spec() == self.claim_spec(),
            r.nondeterminism_spec() == self.nondeterminism_spec(),
            r.job_queue_spec() == self.job_queue_spec(),
    {
        let mut b = self;
        b.suppress_capability_warning = true;
        b
    }

    /// create valid or invalid mock proof. (optional)
    ///
    /// default = true
    ///
    /// only applies if the network uses mock proofs, eg regtest.
    pub fn valid_mock(self, valid_mock: bool) -> (r: Self)
        ensures
            r@ == (ProofBuilderView { valid_mock: Some(valid_mock), ..self@ }),
            r.program_spec() == self.program_spec(),
            r.claim_spec() == self.claim_spec(),
            r.nondeterminism_spec() == self.nondeterminism_spec(),
            r.job_queue_spec() == self.job_queue_spec(),
    {
        let mut b = self;
        b.valid_mock = Some(valid_mock);
        b
    }

    /// Decides what building the proof comes to (see [`proof_plan_spec`]); a
    /// proving job gets the builder's program, claim, secret input and job
    /// queue.
    pub fn build(self) -> (r: ProofBuildPlan<Q>)
        ensures
            r.plan_view() == proof_plan_spec(self@),
            match r {
                ProofBuildPlan::Prove { program, claim, nondeterminism, job_queue, .. } => {
                    &&& self.program_spec() == Some(program)
                    &&& self.claim_spec() == Some(claim)
                    &&& self.nondeterminism_spec() == Some(nondeterminism)
                    &&& job_queue == self.job_queue_spec()
                },
                _ => true,
            },
    {
        let ProofBuilder {
            program,
            claim,
            nondeterminism,
            job_queue,
            proof_job_options,
            tx_proving_capability,
            valid_mock,
            suppress_capability_warning,
        } = self;
        let (program, claim, nondeterminism) = match (program, claim, nondeterminism) {
            (Some(p), Some(c), Some(n)) => (p, c, n),
            _ => {
                return ProofBuildPlan::Fail(CreateProofError::MissingRequirement);
            },
        };
        if proof_job_options.job_settings.network.use_mock_proof() {
            let valid = match valid_mock {
                Some(v) => v,
                None => true,
            };
            return ProofBuildPlan::Mock { valid };
        }
        let warn_missing_capability = match tx_proving_capability {
            Some(capability) => {
                if !capability.can_prove(TransactionProofType::SingleProof) {
                    return ProofBuildPlan::Fail(
                        CreateProofError::TooWeak {
                            proof_type: TransactionProofType::SingleProof,
                            capability,
                        },
                    );
                }
                false
            },
            None => !suppress_capability_warning,
        };
        ProofBuildPlan::Prove {
            program,
            claim,
            nondeterminism,
            job_queue,
            proof_job_options,
            warn_missing_capability,
        }
    }
}

/// Where the primitive witness of a transaction comes from: given by value,
/// given by reference, or to be made from the transaction's details.
pub enum WitnessSource<'a, D, W> {
    Owned(W),
    Borrowed(&'a W),
    FromDetails(&'a D),
}

/// Which kind of [`WitnessSource`] a source is.
pub enum WitnessSourceKind {
    Owned,
    Borrowed,
    FromDetails,
}

impl<'a, D, W> WitnessSource<'a, D, W> {
    /// The source's kind.
    pub open spec fn kind(&self) -> WitnessSourceKind {
        match self {
            WitnessSource::Owned(_) => WitnessSourceKind::Owned,
            WitnessSource::Borrowed(_) => WitnessSourceKind::Borrowed,
            WitnessSource::FromDetails(_) => WitnessSourceKind::FromDetails,
        }
    }
}

/// The source of the primitive witness that the builders use: a witness
/// given by value before one given by reference before the transaction's
/// details; `None` when none of them was given.
pub open spec fn witness_source_choice(has_witness: bool, has_witness_ref: bool, has_details: bool) -> Option<WitnessSourceKind> {
    if has_witness {
        Some(WitnessSourceKind::Owned)
    } else if has_witness_ref {
        Some(WitnessSourceKind::Borrowed)
    } else if has_details {
        Some(WitnessSourceKind::FromDetails)
    } else {
        None
    }
}

/// Only a device that produces single proofs is handed a proving job when it
/// names its capability: off a network that mocks proofs, a build that has
/// its program, claim and secret input and a capability `c` proves the claim
/// when `c` is the single-proof capability, and otherwise fails as too weak
/// for a single proof, naming `c`.
pub proof fn lemma_named_capability_must_prove_single_proofs(b: ProofBuilderView, c: TxProvingCapability)
    requires
        b.has_program && b.has_claim && b.has_nondeterminism,
        b.proof_job_options.job_settings.network != crate::network::Network::RegTest,
        b.tx_proving_capability == Some(c),
    ensures
        c == TxProvingCapability::SingleProof ==> proof_plan_spec(b) == (ProofPlanView::Prove {
            proof_job_options: b.proof_job_options,
            warn_missing_capability: false,
        }),
        c != TxProvingCapability::SingleProof ==> proof_plan_spec(b) == ProofPlanView::Fail(
            CreateProofError::TooWeak { proof_type: TransactionProofType::SingleProof, capability: c },
        ),
{
}

/// On a network that mocks proofs, a build that has its program, claim and
/// secret input comes to a mock proof, which is valid unless an invalid one
/// was asked for.
pub proof fn lemma_mock_is_valid_by_default(b: ProofBuilderView)
    requires
        b.has_program && b.has_claim && b.has_nondeterminism,
        b.proof_job_options.job_settings.network == crate::network::Network::RegTest,
    ensures
        b.valid_mock is None ==> proof_plan_spec(b) == (ProofPlanView::Mock { valid: true }),
        b.valid_mock == Some(false) ==> proof_plan_spec(b) == (ProofPlanView::Mock { valid: false }),
        b.valid_mock == Some(true) ==> proof_plan_spec(b) == (ProofPlanView::Mock { valid: true }),
{
}

/// A build without its program, claim or secret input fails for a missing
/// requirement, on every network. Off a network that mocks proofs, one that
/// names no capability is handed to the queue with its job options, with a
/// warning about the missing capability unless that was suppressed.
pub proof fn lemma_requirements_and_capability_warning(b: ProofBuilderView)
    ensures
        !(b.has_program && b.has_claim && b.has_nondeterminism) ==> proof_plan_spec(b) == ProofPlanView::Fail(
            CreateProofError::MissingRequirement,
        ),
        b.has_program && b.has_claim && b.has_nondeterminism && b.proof_job_options.job_settings.network
            != crate::network::Network::RegTest && b.tx_proving_capability is None ==> proof_plan_spec(b) == (
        ProofPlanView::Prove {
            proof_job_options: b.proof_job_options,
            warn_missing_capability: !b.suppress_capability_warning,
        }),
{
}

} // verus!
