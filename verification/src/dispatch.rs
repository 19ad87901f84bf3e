//! VM-exit dispatcher: after every hardware trap, classifies the exit
//! reason recorded in the control area, invokes the matching handler, and
//! returns the continuation directive — resume the guest as it was, resume
//! past the trapped instruction, or tear this processor's virtualization
//! down.

use vstd::prelude::*;

use crate::cpuid::{cpuid_transition, handle_cpuid};
use crate::hook::HookManager;
use crate::npf::{handle_npf, npf_transition};
use crate::paging::spec_align_down;
use crate::vcpu::{
    npf_page_present, ExitType, GuestRegisters, SharedData, VcpuData, VMEXIT_CPUID, VMEXIT_NPF,
};

verus! {

/// Dispatch-loop state of one logical processor: still running under the
/// hypervisor, or returned to native execution for good.
#[derive(Clone, Copy, PartialEq, Eq, Structural, Debug)]
pub enum VcpuRunState {
    Running,
    Terminal,
}

/// Applies a handler's continuation directive to the dispatch loop: both
/// resume directives keep the guest running, and the devirtualization
/// signal is terminal — no further dispatch occurs on that path.
pub fn apply_exit_type(state: VcpuRunState, exit: ExitType) -> (next: VcpuRunState)
    requires
        state is Running,
    ensures
        next == (if exit is ExitHypervisor {
            VcpuRunState::Terminal
        } else {
            VcpuRunState::Running
        }),
{
    match exit {
        ExitType::Continue => VcpuRunState::Running,
        ExitType::IncrementRIP => VcpuRunState::Running,
        ExitType::ExitHypervisor => VcpuRunState::Terminal,
    }
}

/// Dispatches one VM-exit. The two exit reasons this core handles are CPUID
/// interceptions and nested page faults; a present-page fault presupposes a
/// page an earlier fault mapped, as in the fault handler itself.
pub fn handle_vmexit(
    vcpu: &mut VcpuData,
    guest_regs: &mut GuestRegisters,
    shared: &mut SharedData,
    hooks: &HookManager,
) -> (exit: ExitType)
    requires
        old(vcpu).guest_vmcb.control_area.exit_code == VMEXIT_CPUID || old(
            vcpu,
        ).guest_vmcb.control_area.exit_code == VMEXIT_NPF,
        old(shared).primary_npt.wf(),
        old(shared).secondary_npt.wf(),
        hooks.wf(),
        old(vcpu).guest_vmcb.control_area.exit_code == VMEXIT_NPF && npf_page_present(
            old(vcpu).guest_vmcb.control_area.exit_info1,
        ) ==> old(shared).primary_npt@.contains_key(
            spec_align_down(old(vcpu).guest_vmcb.control_area.exit_info2),
        ) && old(shared).secondary_npt@.contains_key(
            spec_align_down(old(vcpu).guest_vmcb.control_area.exit_info2),
        ),
    ensures
        old(vcpu).guest_vmcb.control_area.exit_code == VMEXIT_CPUID ==> cpuid_transition(
            *old(vcpu),
            *old(guest_regs),
            *final(vcpu),
            *final(guest_regs),
            exit,
        ) && *final(shared) == *old(shared),
        old(vcpu).guest_vmcb.control_area.exit_code == VMEXIT_NPF ==> npf_transition(
            *old(vcpu),
            *old(shared),
            hooks@,
            *final(vcpu),
            *final(shared),
            exit,
        ) && *final(guest_regs) == *old(guest_regs),
        final(shared).primary_npt.wf(),
        final(shared).secondary_npt.wf(),
{
    if vcpu.guest_vmcb.control_area.exit_code == VMEXIT_CPUID {
        handle_cpuid(vcpu, guest_regs)
    } else {
        handle_npf(vcpu, guest_regs, shared, hooks)
    }
}

} // verus!
