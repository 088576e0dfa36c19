//! The Triton VM items that the proving logic hands around: programs, claims,
//! secret inputs and VM states, and running a program to completion.
use vstd::prelude::*;

verus! {

/// A Triton VM program.
#[verifier::external_type_specification]
#[verifier::external_body]
pub struct ExProgram(triton_vm::prelude::Program);

/// A claim about a Triton VM run: the program's digest, its public input and
/// its public output.
#[verifier::external_type_specification]
#[verifier::external_body]
pub struct ExClaim(triton_vm::prelude::Claim);

/// The secret input of a Triton VM run.
#[verifier::external_type_specification]
#[verifier::external_body]
pub struct ExNonDeterminism(triton_vm::prelude::NonDeterminism);

/// The state of a Triton VM.
#[verifier::external_type_specification]
#[verifier::external_body]
pub struct ExVMState(triton_vm::prelude::VMState);

/// The initial VM state for running `program` on the public input of
/// `claim` with the secret input `nondeterminism`.
pub uninterp spec fn vm_initial_state(
    program: triton_vm::prelude::Program,
    claim: triton_vm::prelude::Claim,
    nondeterminism: triton_vm::prelude::NonDeterminism,
) -> triton_vm::prelude::VMState;

/// What one step of the VM does to a state: the state after the step, or
/// `None` when the instruction fails.
pub uninterp spec fn vm_step_outcome(s: triton_vm::prelude::VMState) -> Option<triton_vm::prelude::VMState>;

/// Whether the VM in state `s` has halted.
pub uninterp spec fn vm_is_halting(s: triton_vm::prelude::VMState) -> bool;

/// The number of cycles the VM in state `s` has run.
pub uninterp spec fn vm_cycle_count(s: triton_vm::prelude::VMState) -> u32;

/// The initial VM state for running `program` on the claim's public input and
/// the secret input `nondeterminism`.
///
/// Trusted: calls `VMState::new` of triton-vm, which builds the state from
/// its arguments alone and cannot fail. The contract names the state and
/// states what the source sets plainly: no cycle has run and the machine has
/// not halted.
#[verifier::external_body]
pub(crate) fn new_vm_state(
    program: triton_vm::prelude::Program,
    claim: &triton_vm::prelude::Claim,
    nondeterminism: triton_vm::prelude::NonDeterminism,
) -> (r: triton_vm::prelude::VMState)
    ensures
        r == vm_initial_state(program, *claim, nondeterminism),
        vm_cycle_count(r) == 0,
        !vm_is_halting(r),
{
    triton_vm::prelude::VMState::new(program, claim.input.clone().into(), nondeterminism)
}

/// Runs one instruction: `true` when it succeeded.
///
/// Trusted: calls `VMState::step` of triton-vm, whose result depends on the
/// state alone. The contract names the new state, and states what the source
/// shows: a successful step adds one to the cycle count. The count is a
/// `u32` that the step increments, so a state whose count is at its largest
/// is left out. What a failed step leaves in the state is not stated.
#[verifier::external_body]
pub(crate) fn step_vm(vmstate: &mut triton_vm::prelude::VMState) -> (r: bool)
    requires
        vm_cycle_count(*old(vmstate)) < u32::MAX,
    ensures
        r == (vm_step_outcome(*old(vmstate)) is Some),
        r ==> *final(vmstate) == vm_step_outcome(*old(vmstate))->0,
        r ==> vm_cycle_count(*final(vmstate)) == vm_cycle_count(*old(vmstate)) + 1,
{
    vmstate.step().is_ok()
}

/// Whether the VM has halted.
///
/// Trusted: reads the public field `halting` of triton-vm's `VMState`.
#[verifier::external_body]
pub(crate) fn is_halting(vmstate: &triton_vm::prelude::VMState) -> (r: bool)
    ensures
        r == vm_is_halting(*vmstate),
{
    vmstate.halting
}

/// The number of cycles the VM has run.
///
/// Trusted: reads the public field `cycle_count` of triton-vm's `VMState`.
#[verifier::external_body]
pub(crate) fn cycle_count(vmstate: &triton_vm::prelude::VMState) -> (r: u32)
    ensures
        r == vm_cycle_count(*vmstate),
{
    vmstate.cycle_count
}

/// How a run of at most `fuel` steps ends.
#[derive(Debug, Clone, Copy, PartialEq, Eq, Structural)]
pub enum VmRunEnd {
    /// The VM halted, having run this many cycles.
    Halted(u32),
    /// An instruction failed.
    Failed,
    /// The steps ran out before the VM halted.
    Exceeded,
}

/// Running the VM from state `s` for at most `fuel` steps: it halts (checked
/// before each step), an instruction fails, or the steps run out.
pub open spec fn vm_run_steps(s: triton_vm::prelude::VMState, fuel: nat) -> VmRunEnd
    decreases fuel,
{
    if vm_is_halting(s) {
        VmRunEnd::Halted(vm_cycle_count(s))
    } else if fuel == 0 {
        VmRunEnd::Exceeded
    } else {
        match vm_step_outcome(s) {
            None => VmRunEnd::Failed,
            Some(t) => vm_run_steps(t, (fuel - 1) as nat),
        }
    }
}

/// The state in which a run of at most `fuel` steps from `s` stops (see
/// [`vm_run_steps`]): the halted state, or the state when the steps ran out;
/// `None` when an instruction fails, which leaves a state that is not known.
pub open spec fn vm_run_state(s: triton_vm::prelude::VMState, fuel: nat) -> Option<triton_vm::prelude::VMState>
    decreases fuel,
{
    if vm_is_halting(s) || fuel == 0 {
        Some(s)
    } else {
        match vm_step_outcome(s) {
            None => None,
            Some(t) => vm_run_state(t, (fuel - 1) as nat),
        }
    }
}

/// Runs the VM from `vmstate` for at most `fuel` steps (see
/// [`vm_run_steps`]), leaving it in the state where the run stopped (see
/// [`vm_run_state`]); the cycle count must not pass its largest value.
pub fn run_vm_steps(vmstate: &mut triton_vm::prelude::VMState, fuel: u64) -> (r: VmRunEnd)
    requires
        vm_cycle_count(*old(vmstate)) + fuel <= u32::MAX,
    ensures
        r == vm_run_steps(*old(vmstate), fuel as nat),
        vm_run_state(*old(vmstate), fuel as nat) matches Some(t) ==> *final(vmstate) == t,
{
    let ghost s0 = *vmstate;
    let ghost c0 = vm_cycle_count(s0);
    let mut k: u64 = 0;
    loop
        invariant
            k <= fuel,
            s0 == *old(vmstate),
            c0 + fuel <= u32::MAX,
            vm_cycle_count(*vmstate) == c0 + k,
            vm_run_steps(*vmstate, (fuel - k) as nat) == vm_run_steps(s0, fuel as nat),
            vm_run_state(*vmstate, (fuel - k) as nat) == vm_run_state(s0, fuel as nat),
        decreases fuel - k,
    {
        if is_halting(vmstate) {
            return VmRunEnd::Halted(cycle_count(vmstate));
        }
        if k == fuel {
            return VmRunEnd::Exceeded;
        }
        let ghost before = *vmstate;
        if !step_vm(vmstate) {
            return VmRunEnd::Failed;
        }
        proof {
            assert(vm_run_steps(before, (fuel - k) as nat) == vm_run_steps(*vmstate, (fuel - k - 1) as nat));
            assert(vm_run_state(before, (fuel - k) as nat) == vm_run_state(*vmstate, (fuel - k - 1) as nat));
        }
        k = k + 1;
    }
}

} // verus!
