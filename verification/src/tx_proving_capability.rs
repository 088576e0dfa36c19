//! Which type of transaction proof a device can produce.
use vstd::prelude::*;

use crate::text::{chars_equal, chars_of, parse_u8_chars, parse_u8_spec, starts_with_chars, decimal_string, decimal};
use crate::vm::{new_vm_state, run_vm_steps, vm_cycle_count, vm_initial_state, vm_run_state, vm_run_steps, VmRunEnd};

verus! {

/// The types of transaction proof, from the weakest to the strongest.
#[derive(Debug, Clone, Copy, PartialEq, Eq, Structural, Hash)]
pub enum TransactionProofType {
    PrimitiveWitness,
    ProofCollection,
    SingleProof,
}

/// The number of a proof type: 1, 2 and 3 from the weakest to the strongest.
pub open spec fn proof_type_number(t: TransactionProofType) -> u8 {
    match t {
        TransactionProofType::PrimitiveWitness => 1,
        TransactionProofType::ProofCollection => 2,
        TransactionProofType::SingleProof => 3,
    }
}

impl TransactionProofType {
    /// The number of the proof type (see [`proof_type_number`]).
    pub fn number(&self) -> (r: u8)
        ensures
            r == proof_type_number(*self),
    {
        match self {
            TransactionProofType::PrimitiveWitness => 1,
            TransactionProofType::ProofCollection => 2,
            TransactionProofType::SingleProof => 3,
        }
    }

    /// The strongest proof type that a capability produces. A lock-script
    /// capability has no proof type.
    pub fn from_capability(c: TxProvingCapability) -> (r: Self)
        requires
            !(c is LockScript),
        ensures
            r == strongest_proof_type(c),
            proof_type_number(r) == capability_level(c),
    {
        match c {
            TxProvingCapability::LockScript => TransactionProofType::PrimitiveWitness,
            TxProvingCapability::PrimitiveWitness => Self::PrimitiveWitness,
            TxProvingCapability::ProofCollection => Self::ProofCollection,
            TxProvingCapability::SingleProof => Self::SingleProof,
            TxProvingCapability::Log2PaddedHeight(max) => if max >= 11 {
                Self::ProofCollection
            } else {
                Self::PrimitiveWitness
            },
        }
    }
}

/// The strongest proof type that a capability other than a lock script
/// produces: for a padded-height limit, a proof collection from 11 up and a
/// primitive witness below.
pub open spec fn strongest_proof_type(c: TxProvingCapability) -> TransactionProofType {
    match c {
        TxProvingCapability::SingleProof => TransactionProofType::SingleProof,
        TxProvingCapability::ProofCollection => TransactionProofType::ProofCollection,
        TxProvingCapability::Log2PaddedHeight(max) => if max >= 11 {
            TransactionProofType::ProofCollection
        } else {
            TransactionProofType::PrimitiveWitness
        },
        _ => TransactionProofType::PrimitiveWitness,
    }
}

/// Which type of proof a device can produce.
#[derive(Debug, Clone, Copy, PartialEq, Eq, Structural, Hash)]
pub enum TxProvingCapability {
    LockScript,
    PrimitiveWitness,
    ProofCollection,
    SingleProof,
    Log2PaddedHeight(u8),
}

impl Default for TxProvingCapability {
    fn default() -> (r: Self)
        ensures
            r == TxProvingCapability::PrimitiveWitness,
    {
        TxProvingCapability::PrimitiveWitness
    }
}

/// The level of a capability, on the scale of [`proof_type_number`]: 0 for a
/// lock script; for a padded-height limit, a proof collection from 11 up and
/// a primitive witness below.
pub open spec fn capability_level(c: TxProvingCapability) -> u8 {
    match c {
        TxProvingCapability::LockScript => 0,
        TxProvingCapability::PrimitiveWitness => 1,
        TxProvingCapability::ProofCollection => 2,
        TxProvingCapability::SingleProof => 3,
        TxProvingCapability::Log2PaddedHeight(max) => if max >= 11 {
            2
        } else {
            1
        },
    }
}

/// `2` to the power `e`.
pub open spec fn two_pow(e: nat) -> nat
    decreases e,
{
    if e == 0 {
        1
    } else {
        2 * two_pow((e - 1) as nat)
    }
}

/// The first power of two from `p` on, doubling, that is at least `n`.
pub open spec fn next_power_of_two_from(n: nat, p: nat) -> nat
    decreases (if p < n { n - p } else { 0 }),
    when p > 0
{
    if p >= n {
        p
    } else {
        next_power_of_two_from(n, 2 * p)
    }
}

/// The smallest power of two that is at least `n` (1 for 0).
pub open spec fn next_power_of_two(n: nat) -> nat {
    next_power_of_two_from(n, 1)
}

/// Whether a run of `cycle_count` cycles, padded to a power of two, stays
/// below `2^max`.
pub open spec fn padded_height_fits_spec(max: u8, cycle_count: u32) -> bool {
    next_power_of_two(cycle_count as nat) < two_pow(max as nat)
}

/// How many steps of the VM a padded-height limit `max` runs at most: `2^max`
/// (a run that has not halted by then cannot fit the limit), and `2^31` for a
/// limit that does not fit in 32 bits.
pub open spec fn step_bound(max: u8) -> nat {
    if max < 32 {
        two_pow(max as nat)
    } else {
        0x8000_0000
    }
}

/// What a capability says of a claim, given how the VM run of the claim
/// ended: only a padded-height limit can prove a claim, and only one whose
/// run halted with a padded height below the limit. A failed run proves
/// nothing, and neither does a run that did not halt within `2^max` steps.
/// `None` where the padded height or the limit does not fit in 32 bits.
pub open spec fn claim_verdict_spec(c: TxProvingCapability, end: VmRunEnd) -> Option<bool> {
    match c {
        TxProvingCapability::Log2PaddedHeight(max) => match end {
            VmRunEnd::Halted(cycles) => if max < 32 && cycles <= 0x8000_0000u32 {
                Some(padded_height_fits_spec(max, cycles))
            } else {
                None
            },
            VmRunEnd::Failed => Some(false),
            VmRunEnd::Exceeded => if max < 32 {
                Some(false)
            } else {
                None
            },
        },
        _ => Some(false),
    }
}

/// What a capability says of the run from VM state `s`: a padded-height
/// limit runs the VM for at most [`step_bound`] steps and judges how the run
/// ended; any other capability proves no claim.
pub open spec fn claim_outcome_spec(c: TxProvingCapability, s: triton_vm::prelude::VMState) -> Option<bool> {
    match c {
        TxProvingCapability::Log2PaddedHeight(max) => claim_verdict_spec(c, vm_run_steps(s, step_bound(max))),
        _ => Some(false),
    }
}

/// The name a capability is shown by.
pub open spec fn capability_display(c: TxProvingCapability) -> Seq<char> {
    match c {
        TxProvingCapability::PrimitiveWitness => "primitive witness"@,
        TxProvingCapability::LockScript => "lock script"@,
        TxProvingCapability::ProofCollection => "proof collection"@,
        TxProvingCapability::SingleProof => "single proof"@,
        TxProvingCapability::Log2PaddedHeight(_) => "log2-padded-height"@,
    }
}

/// The value name a capability has on the command line.
pub open spec fn capability_value_name(c: TxProvingCapability) -> Seq<char> {
    match c {
        TxProvingCapability::LockScript => "LockScript"@,
        TxProvingCapability::PrimitiveWitness => "PrimitiveWitness"@,
        TxProvingCapability::ProofCollection => "ProofCollection"@,
        TxProvingCapability::SingleProof => "SingleProof"@,
        TxProvingCapability::Log2PaddedHeight(h) => "Log2PaddedHeight="@ + decimal(h as nat),
    }
}

/// The text is not a capability.
#[derive(Debug, Clone, Copy, PartialEq, Eq, Structural)]
pub struct InvalidProvingCapability;

/// The capability that text names: `Log2PaddedHeight=` followed by a `u8`,
/// or one of `lockscript`, `proofcollection` and `singleproof`.
pub open spec fn parse_capability_spec(s: Seq<char>) -> Result<TxProvingCapability, InvalidProvingCapability> {
    let prefix = "Log2PaddedHeight="@;
    if prefix.len() <= s.len() && s.take(prefix.len() as int) == prefix {
        Ok(TxProvingCapability::Log2PaddedHeight(parse_u8_spec(s.skip(prefix.len() as int))->0))
    } else if s == "lockscript"@ {
        Ok(TxProvingCapability::LockScript)
    } else if s == "proofcollection"@ {
        Ok(TxProvingCapability::ProofCollection)
    } else if s == "singleproof"@ {
        Ok(TxProvingCapability::SingleProof)
    } else {
        Err(InvalidProvingCapability)
    }
}

/// Text that starts like a padded-height limit has a valid `u8` after the
/// `=` (other text is refused, not a fault).
pub open spec fn capability_text_well_formed(s: Seq<char>) -> bool {
    let prefix = "Log2PaddedHeight="@;
    prefix.len() <= s.len() && s.take(prefix.len() as int) == prefix ==> parse_u8_spec(
        s.skip(prefix.len() as int),
    ) is Some
}

/// Whether a run of `cycle_count` cycles, padded to a power of two, stays
/// below `2^max`.
pub fn padded_height_fits(max: u8, cycle_count: u32) -> (r: bool)
    requires
        max < 32,
        cycle_count <= 0x8000_0000u32,
    ensures
        r == padded_height_fits_spec(max, cycle_count),
{
    let n = cycle_count as u64;
    let mut p: u64 = 1;
    let ghost mut k: nat = 0;
    proof {
        lemma_two_pow_31();
    }
    while p < n
        invariant
            1 <= p <= 0x8000_0000u64,
            n <= 0x8000_0000u64,
            p == two_pow(k),
            two_pow(31) == 0x8000_0000,
            next_power_of_two_from(n as nat, p as nat) == next_power_of_two(n as nat),
        decreases 0x8000_0000u64 - p,
    {
        proof {
            if k >= 31 {
                lemma_two_pow_grows(31, k);
            }
            lemma_two_pow_grows(k + 1, 31);
        }
        p = p * 2;
        proof {
            k = k + 1;
        }
    }
    let mut big_max: u64 = 1;
    let mut i: u8 = 0;
    while i < max
        invariant
            i <= max,
            max < 32,
            big_max == two_pow(i as nat),
            two_pow(31) == 0x8000_0000,
        decreases max - i,
    {
        proof {
            lemma_two_pow_grows(i as nat + 1, 31);
        }
        big_max = big_max * 2;
        i = i + 1;
    }
    p < big_max
}

/// `2^31`.
proof fn lemma_two_pow_31()
    ensures
        two_pow(31) == 0x8000_0000,
{
    reveal_with_fuel(two_pow, 32);
}

/// Powers of two grow with the exponent.
proof fn lemma_two_pow_grows(e1: nat, e2: nat)
    requires
        e1 <= e2,
    ensures
        two_pow(e1) <= two_pow(e2),
    decreases e2 - e1,
{
    if e1 < e2 {
        lemma_two_pow_grows(e1, (e2 - 1) as nat);
    }
}

/// Whether text that starts like a padded-height limit has a valid `u8`
/// after the `=` (see [`capability_text_well_formed`]).
pub fn capability_text_is_well_formed(s: &str) -> (r: bool)
    ensures
        r == capability_text_well_formed(s@),
{
    let v = chars_of(s);
    let prefix = chars_of("Log2PaddedHeight=");
    if starts_with_chars(&v, &prefix) {
        parse_u8_chars(&v, prefix.len()).is_some()
    } else {
        true
    }
}

impl TxProvingCapability {
    /// Whether the capability can produce a proof of type `proof_type`: its
    /// level is at least the proof type's number.
    pub fn can_prove(&self, proof_type: TransactionProofType) -> (r: bool)
        ensures
            r == (capability_level(*self) >= proof_type_number(proof_type)),
    {
        let self_val: u8 = match *self {
            Self::LockScript => 0,
            Self::PrimitiveWitness => TransactionProofType::PrimitiveWitness.number(),
            Self::ProofCollection => TransactionProofType::ProofCollection.number(),
            Self::SingleProof => TransactionProofType::SingleProof.number(),
            Self::Log2PaddedHeight(max) => if max >= 11 {
                TransactionProofType::ProofCollection.number()
            } else {
                TransactionProofType::PrimitiveWitness.number()
            },
        };
        self_val >= proof_type.number()
    }

    /// What the capability says of a claim, given how its VM run ended (see
    /// [`claim_verdict_spec`]).
    pub fn claim_verdict(&self, end: VmRunEnd) -> (r: Option<bool>)
        ensures
            r == claim_verdict_spec(*self, end),
    {
        match *self {
            TxProvingCapability::Log2PaddedHeight(max) => match end {
                VmRunEnd::Halted(cycles) => {
                    if max < 32 && cycles <= 0x8000_0000u32 {
                        Some(padded_height_fits(max, cycles))
                    } else {
                        None
                    }
                },
                VmRunEnd::Failed => Some(false),
                VmRunEnd::Exceeded => if max < 32 {
                    Some(false)
                } else {
                    None
                },
            },
            _ => Some(false),
        }
    }

    /// Whether the capability can prove the run held in `vmstate`: only a
    /// padded-height limit runs the VM, for at most `2^max` steps, and proves
    /// the claim when the run halts with a padded height below the limit (see
    /// [`claim_outcome_spec`]). The run leaves the VM where it stopped (see
    /// [`vm_run_state`]). The VM must not have run `2^31` cycles before, so
    /// that the cycle count cannot overflow.
    pub fn can_prove_claim(&self, vmstate: &mut triton_vm::prelude::VMState) -> (r: Option<bool>)
        requires
            vm_cycle_count(*old(vmstate)) < 0x8000_0000,
        ensures
            r == claim_outcome_spec(*self, *old(vmstate)),
            !(*self is Log2PaddedHeight) ==> *final(vmstate) == *old(vmstate),
            *self matches TxProvingCapability::Log2PaddedHeight(max) ==> (vm_run_state(
                *old(vmstate),
                step_bound(max),
            ) matches Some(t) ==> *final(vmstate) == t),
    {
        match *self {
            Self::Log2PaddedHeight(max) => {
                proof {
                    lemma_two_pow_31();
                }
                let bound: u64 = if max < 32 {
                    let mut b: u64 = 1;
                    let mut i: u8 = 0;
                    while i < max
                        invariant
                            i <= max,
                            max < 32,
                            b == two_pow(i as nat),
                            b <= 0x8000_0000,
                            two_pow(31) == 0x8000_0000,
                        decreases max - i,
                    {
                        proof {
                            lemma_two_pow_grows(i as nat + 1, 31);
                        }
                        b = b * 2;
                        i = i + 1;
                    }
                    b
                } else {
                    0x8000_0000
                };
                proof {
                    lemma_two_pow_31();
                    if max < 32 {
                        lemma_two_pow_grows(max as nat, 31);
                    }
                }
                assert(bound <= 0x8000_0000 && bound == step_bound(max));
                let end = run_vm_steps(vmstate, bound);
                self.claim_verdict(end)
            },
            _ => Some(false),
        }
    }

    /// Whether the capability can prove `claim` about `program` run with the
    /// secret input `nondeterminism`: the VM starts from the initial state of
    /// these (see [`Self::can_prove_claim`]).
    pub fn can_prove_claim_triple(
        &self,
        program: triton_vm::prelude::Program,
        claim: triton_vm::prelude::Claim,
        nondeterminism: triton_vm::prelude::NonDeterminism,
    ) -> (r: Option<bool>)
        ensures
            r == claim_outcome_spec(*self, vm_initial_state(program, claim, nondeterminism)),
    {
        let mut vmstate = new_vm_state(program, &claim, nondeterminism);
        self.can_prove_claim(&mut vmstate)
    }

    /// The name the capability is shown by.
    pub fn display_name(&self) -> (r: &'static str)
        ensures
            r@ == capability_display(*self),
    {
        proof {
            reveal_strlit("primitive witness");
            reveal_strlit("lock script");
            reveal_strlit("proof collection");
            reveal_strlit("single proof");
            reveal_strlit("log2-padded-height");
        }
        match self {
            TxProvingCapability::PrimitiveWitness => "primitive witness",
            TxProvingCapability::LockScript => "lock script",
            TxProvingCapability::ProofCollection => "proof collection",
            TxProvingCapability::SingleProof => "single proof",
            TxProvingCapability::Log2PaddedHeight(_) => "log2-padded-height",
        }
    }

    /// The name the capability is shown by, as a `String`.
    pub fn to_display_string(&self) -> (r: String)
        ensures
            r@ == capability_display(*self),
    {
        let s = self.display_name();
        s.to_owned()
    }

    /// Parses a capability from command-line text (see
    /// [`parse_capability_spec`]). The primitive-witness capability is only
    /// used internally and has no text.
    pub fn from_str(s: &str) -> (r: Result<Self, InvalidProvingCapability>)
        requires
            capability_text_well_formed(s@),
        ensures
            r == parse_capability_spec(s@),
    {
        let v = chars_of(s);
        let prefix = chars_of("Log2PaddedHeight=");
        if starts_with_chars(&v, &prefix) {
            match parse_u8_chars(&v, prefix.len()) {
                Some(value) => {
                    return Ok(TxProvingCapability::Log2PaddedHeight(value));
                },
                None => {
                    assert(false);
                    return Err(InvalidProvingCapability);
                },
            }
        }
        if chars_equal(&v, &chars_of("lockscript")) {
            Ok(TxProvingCapability::LockScript)
        } else if chars_equal(&v, &chars_of("proofcollection")) {
            Ok(TxProvingCapability::ProofCollection)
        } else if chars_equal(&v, &chars_of("singleproof")) {
            Ok(TxProvingCapability::SingleProof)
        } else {
            Err(InvalidProvingCapability)
        }
    }

    /// The capabilities offered as command-line values; the padded-height
    /// limit stands with a limit of 0.
    pub fn value_variants() -> (r: Vec<TxProvingCapability>)
        ensures
            r@ == seq![
                TxProvingCapability::LockScript,
                TxProvingCapability::PrimitiveWitness,
                TxProvingCapability::ProofCollection,
                TxProvingCapability::SingleProof,
                TxProvingCapability::Log2PaddedHeight(0),
            ],
    {
        vec![
            TxProvingCapability::LockScript,
            TxProvingCapability::PrimitiveWitness,
            TxProvingCapability::ProofCollection,
            TxProvingCapability::SingleProof,
            TxProvingCapability::Log2PaddedHeight(0),
        ]
    }

    /// The value name of the capability on the command line.
    pub fn possible_value_name(&self) -> (r: String)
        ensures
            r@ == capability_value_name(*self),
    {
        proof {
            reveal_strlit("LockScript");
            reveal_strlit("PrimitiveWitness");
            reveal_strlit("ProofCollection");
            reveal_strlit("SingleProof");
        }
        match self {
            TxProvingCapability::LockScript => "LockScript".to_owned(),
            TxProvingCapability::PrimitiveWitness => "PrimitiveWitness".to_owned(),
            TxProvingCapability::ProofCollection => "ProofCollection".to_owned(),
            TxProvingCapability::SingleProof => "SingleProof".to_owned(),
            TxProvingCapability::Log2PaddedHeight(h) => {
                let mut s = "Log2PaddedHeight=".to_owned();
                let d = decimal_string(*h as u128);
                crate::text::push_str(&mut s, d.as_str());
                s
            },
        }
    }
}

/// A capability that can produce a proof type can produce every weaker one,
/// and the strongest proof type of a capability other than a lock script is
/// one it can produce.
pub proof fn lemma_capability_order(c: TxProvingCapability, weaker: TransactionProofType, stronger: TransactionProofType)
    ensures
        proof_type_number(weaker) <= proof_type_number(stronger) && capability_level(c) >= proof_type_number(
            stronger,
        ) ==> capability_level(c) >= proof_type_number(weaker),
        !(c is LockScript) ==> capability_level(c) >= proof_type_number(strongest_proof_type(c)),
{
}

/// What each capability can produce: a lock script nothing; a primitive
/// witness capability only primitive witnesses; a proof-collection capability
/// primitive witnesses and proof collections; a single-proof capability
/// every type; a padded-height limit of at least 11 up to proof collections,
/// and a smaller one only primitive witnesses. The strongest type of each
/// capability but a lock script is the strongest it can produce.
pub proof fn lemma_capability_table(c: TxProvingCapability, t: TransactionProofType)
    ensures
        (capability_level(c) >= proof_type_number(t)) == match c {
            TxProvingCapability::LockScript => false,
            TxProvingCapability::PrimitiveWitness => t == TransactionProofType::PrimitiveWitness,
            TxProvingCapability::ProofCollection => t != TransactionProofType::SingleProof,
            TxProvingCapability::SingleProof => true,
            TxProvingCapability::Log2PaddedHeight(max) => if max >= 11 {
                t != TransactionProofType::SingleProof
            } else {
                t == TransactionProofType::PrimitiveWitness
            },
        },
        c == TxProvingCapability::PrimitiveWitness ==> strongest_proof_type(c) == TransactionProofType::PrimitiveWitness,
        c == TxProvingCapability::ProofCollection ==> strongest_proof_type(c) == TransactionProofType::ProofCollection,
        c == TxProvingCapability::SingleProof ==> strongest_proof_type(c) == TransactionProofType::SingleProof,
        c matches TxProvingCapability::Log2PaddedHeight(max) ==> strongest_proof_type(c) == (if max >= 11 {
            TransactionProofType::ProofCollection
        } else {
            TransactionProofType::PrimitiveWitness
        }),
{
}

} // verus!
