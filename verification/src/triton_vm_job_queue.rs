//! Priorities and options of Triton VM proving jobs.
use vstd::prelude::*;

use crate::network::Network;
use crate::tx_proving_capability::TxProvingCapability;

verus! {

/// The priority of a proving job, from the lowest to the highest.
#[derive(Debug, Clone, Copy, PartialEq, Eq, Structural, PartialOrd, Ord, Hash)]
pub enum TritonVmJobPriority {
    Lowest,
    Low,
    Normal,
    High,
    Highest,
}

/// The number of a priority: 1 for the lowest up to 5 for the highest.
pub open spec fn priority_number(p: TritonVmJobPriority) -> u8 {
    match p {
        TritonVmJobPriority::Lowest => 1,
        TritonVmJobPriority::Low => 2,
        TritonVmJobPriority::Normal => 3,
        TritonVmJobPriority::High => 4,
        TritonVmJobPriority::Highest => 5,
    }
}

impl Default for TritonVmJobPriority {
    fn default() -> (r: Self)
        ensures
            r == TritonVmJobPriority::Normal,
    {
        TritonVmJobPriority::Normal
    }
}

impl TritonVmJobPriority {
    /// The number of the priority (see [`priority_number`]).
    pub fn number(&self) -> (r: u8)
        ensures
            r == priority_number(*self),
    {
        match self {
            TritonVmJobPriority::Lowest => 1,
            TritonVmJobPriority::Low => 2,
            TritonVmJobPriority::Normal => 3,
            TritonVmJobPriority::High => 4,
            TritonVmJobPriority::Highest => 5,
        }
    }

    /// Whether this priority is above `other`.
    pub fn is_above(&self, other: &Self) -> (r: bool)
        ensures
            r == (priority_number(*self) > priority_number(*other)),
    {
        self.number() > other.number()
    }
}

/// The settings a proving job runs under: the largest padded height the
/// device proves, the network, and the device's proving capability.
#[derive(Debug, Clone, Copy, PartialEq, Eq, Structural)]
pub struct ProverJobSettings {
    pub max_log2_padded_height_for_proofs: Option<u8>,
    pub network: Network,
    pub tx_proving_capability: TxProvingCapability,
}

impl Default for ProverJobSettings {
    fn default() -> (r: Self)
        ensures
            r == default_job_settings(),
    {
        ProverJobSettings {
            max_log2_padded_height_for_proofs: None,
            network: Network::Main,
            tx_proving_capability: TxProvingCapability::PrimitiveWitness,
        }
    }
}

/// The default settings: no padded-height limit, the main network, and a
/// device that produces primitive witnesses only.
pub open spec fn default_job_settings() -> ProverJobSettings {
    ProverJobSettings {
        max_log2_padded_height_for_proofs: None,
        network: Network::Main,
        tx_proving_capability: TxProvingCapability::PrimitiveWitness,
    }
}

/// The default options: normal priority and the default settings.
pub open spec fn default_job_options() -> TritonVmProofJobOptions {
    TritonVmProofJobOptions { job_priority: TritonVmJobPriority::Normal, job_settings: default_job_settings() }
}

/// The options of a proving job: its priority and its settings.
#[derive(Debug, Clone, Copy, PartialEq, Eq, Structural)]
pub struct TritonVmProofJobOptions {
    pub job_priority: TritonVmJobPriority,
    pub job_settings: ProverJobSettings,
}

impl Default for TritonVmProofJobOptions {
    fn default() -> (r: Self)
        ensures
            r == default_job_options(),
    {
        TritonVmProofJobOptions {
            job_priority: TritonVmJobPriority::default(),
            job_settings: ProverJobSettings::default(),
        }
    }
}

impl TritonVmProofJobOptions {
    /// Options of priority `job_priority` with no padded-height limit and the
    /// default settings otherwise.
    pub fn from_priority(job_priority: TritonVmJobPriority) -> (r: Self)
        ensures
            r.job_priority == job_priority,
            r.job_settings == default_job_settings(),
    {
        Self { job_priority, job_settings: ProverJobSettings::default() }
    }

    /// Options of priority `v.0` with the padded-height limit `v.1` and the
    /// default settings otherwise.
    pub fn from_priority_and_limit(v: (TritonVmJobPriority, Option<u8>)) -> (r: Self)
        ensures
            r.job_priority == v.0,
            r.job_settings == (ProverJobSettings {
                max_log2_padded_height_for_proofs: v.1,
                network: Network::Main,
                tx_proving_capability: TxProvingCapability::PrimitiveWitness,
            }),
    {
        let (job_priority, max_log2_padded_height_for_proofs) = v;
        let mut job_settings = ProverJobSettings::default();
        job_settings.max_log2_padded_height_for_proofs = max_log2_padded_height_for_proofs;
        Self { job_priority, job_settings }
    }
}

impl From<TritonVmJobPriority> for TritonVmProofJobOptions {
    fn from(job_priority: TritonVmJobPriority) -> (r: Self) {
        Self::from_priority(job_priority)
    }
}

impl vstd::std_specs::convert::FromSpecImpl<TritonVmJobPriority> for TritonVmProofJobOptions {
    open spec fn obeys_from_spec() -> bool {
        true
    }

    open spec fn from_spec(job_priority: TritonVmJobPriority) -> Self {
        TritonVmProofJobOptions {
            job_priority,
            job_settings: ProverJobSettings {
                max_log2_padded_height_for_proofs: None,
                network: Network::Main,
                tx_proving_capability: TxProvingCapability::PrimitiveWitness,
            },
        }
    }
}

impl From<(TritonVmJobPriority, Option<u8>)> for TritonVmProofJobOptions {
    fn from(v: (TritonVmJobPriority, Option<u8>)) -> (r: Self) {
        Self::from_priority_and_limit(v)
    }
}

impl vstd::std_specs::convert::FromSpecImpl<(TritonVmJobPriority, Option<u8>)> for TritonVmProofJobOptions {
    open spec fn obeys_from_spec() -> bool {
        true
    }

    open spec fn from_spec(v: (TritonVmJobPriority, Option<u8>)) -> Self {
        TritonVmProofJobOptions {
            job_priority: v.0,
            job_settings: ProverJobSettings {
                max_log2_padded_height_for_proofs: v.1,
                network: Network::Main,
                tx_proving_capability: TxProvingCapability::PrimitiveWitness,
            },
        }
    }
}

} // verus!
