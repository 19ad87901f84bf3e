//! Nested-page-fault handler: the core stealth algorithm. On a not-present
//! fault it establishes the lazy identity mapping; on a present-page
//! (execute-permission) fault it either switches the guest to the secondary
//! hierarchy with the hook's shadow frame substituted, or falls back to the
//! primary hierarchy's identity view, and in either present case requests a
//! guest-TLB flush and marks the nested-paging state dirty.
//!
//! The contracts describe one processor's handler invocation. Permission
//! toggles on the shared hierarchies are not synchronized across logical
//! processors, and the TLB flush is scoped to the faulting processor's own
//! guest TLB: two cores entering or leaving the hooked region at once can
//! race on the same leaf. Callers must either serialize hook-page
//! transitions or ensure a single core executes the hooked region.

use vstd::prelude::*;

use crate::hook::{spec_find_hook, Hook, HookManager};
use crate::npt::AccessType;
use crate::paging::{spec_align_down, PhysicalAddress};
use crate::vcpu::{
    npf_page_present, ExitType, GuestRegisters, SharedData, VcpuData, NPT_EXIT_INFO_PRESENT,
    TLB_CONTROL_FLUSH_GUEST_TLB, VMCB_CLEAN_NP,
};

verus! {

/// The secondary hierarchy's mapping after the guest enters a hooked page:
/// the faulting page's leaf is retargeted at the shadow frame, executable.
pub open spec fn hook_entry_npt(
    secondary: Map<u64, (u64, AccessType)>,
    page: u64,
    shadow: u64,
) -> Map<u64, (u64, AccessType)> {
    secondary.insert(page, (shadow, AccessType::ReadWriteExecute))
}

/// The TLB control field after a handler requests a guest-TLB flush.
pub open spec fn request_guest_tlb_flush(tlb_control: u64) -> u64 {
    tlb_control | TLB_CONTROL_FLUSH_GUEST_TLB
}

/// The clean bits after a handler marks the nested-paging state dirty, so
/// hardware reloads the cached nested-paging fields on the next entry.
pub open spec fn mark_np_state_dirty(vmcb_clean: u64) -> u64 {
    vmcb_clean & !VMCB_CLEAN_NP
}

/// Everything one nested-page-fault exit does: how the new processor state
/// and the new shared hierarchies relate to the old ones, given the
/// registered hooks.
pub open spec fn npf_transition(
    old_vcpu: VcpuData,
    old_shared: SharedData,
    hooks: Seq<Hook>,
    new_vcpu: VcpuData,
    new_shared: SharedData,
    exit: ExitType,
) -> bool {
    let ca = old_vcpu.guest_vmcb.control_area;
    let nca = new_vcpu.guest_vmcb.control_area;
    let page = spec_align_down(ca.exit_info2);
    &&& exit == ExitType::Continue
    &&& new_shared.primary_npt.root() == old_shared.primary_npt.root()
    &&& new_shared.secondary_npt.root() == old_shared.secondary_npt.root()
    &&& if !npf_page_present(ca.exit_info1) {
        // First touch: establish the lazy identity mapping and resume; the
        // processor state is untouched.
        &&& new_shared.secondary_npt@ == old_shared.secondary_npt@.insert(
            page,
            (page, AccessType::ReadWrite),
        )
        &&& new_shared.primary_npt@ == old_shared.primary_npt@.insert(
            page,
            (page, AccessType::ReadWriteExecute),
        )
        &&& new_vcpu == old_vcpu
    } else {
        // Execute-permission fault: enter the hook or fall back to the
        // identity view, switch the active root accordingly, then force a
        // guest-TLB flush and a reload of the cached nested-paging state.
        &&& match spec_find_hook(hooks, page) {
            Some(hook) => {
                &&& new_shared.secondary_npt@ == hook_entry_npt(
                    old_shared.secondary_npt@,
                    page,
                    hook.page_pa,
                )
                &&& new_shared.primary_npt@ == old_shared.primary_npt@
                &&& nca.ncr3 == old_shared.secondary_npt.root()
            },
            None => {
                &&& new_shared.primary_npt@ == old_shared.primary_npt@.insert(
                    page,
                    (page, AccessType::ReadWriteExecute),
                )
                &&& new_shared.secondary_npt@ == old_shared.secondary_npt@
                &&& nca.ncr3 == old_shared.primary_npt.root()
            },
        }
        &&& nca.tlb_control == request_guest_tlb_flush(ca.tlb_control)
        &&& nca.vmcb_clean == mark_np_state_dirty(ca.vmcb_clean)
        &&& nca.exit_code == ca.exit_code
        &&& nca.exit_info1 == ca.exit_info1
        &&& nca.exit_info2 == ca.exit_info2
    }
}

/// Handles a nested-page-fault exit. A present-page fault can only be a
/// permission violation on a page an earlier fault mapped, so the faulting
/// page is required to have a leaf in both hierarchies in that case; the
/// handler always resumes the guest.
pub fn handle_npf(
    vcpu: &mut VcpuData,
    guest_regs: &mut GuestRegisters,
    shared: &mut SharedData,
    hooks: &HookManager,
) -> (exit: ExitType)
    requires
        old(shared).primary_npt.wf(),
        old(shared).secondary_npt.wf(),
        hooks.wf(),
        npf_page_present(old(vcpu).guest_vmcb.control_area.exit_info1) ==> old(
            shared,
        ).primary_npt@.contains_key(spec_align_down(old(vcpu).guest_vmcb.control_area.exit_info2))
            && old(shared).secondary_npt@.contains_key(
            spec_align_down(old(vcpu).guest_vmcb.control_area.exit_info2),
        ),
    ensures
        npf_transition(*old(vcpu), *old(shared), hooks@, *final(vcpu), *final(shared), exit),
        *final(guest_regs) == *old(guest_regs),
        final(shared).primary_npt.wf(),
        final(shared).secondary_npt.wf(),
{
    let exit_info2 = vcpu.guest_vmcb.control_area.exit_info2;
    let exit_info1 = vcpu.guest_vmcb.control_area.exit_info1;

    // The page walk resolves translations page by page, so only the
    // containing page of the faulting address matters.
    let faulting_pa = PhysicalAddress::from_pa(exit_info2).align_down_to_base_page().as_u64();

    // Page was not present: this is the expected first-touch signal, not a
    // hook event. Establish the identity mapping lazily and resume.
    if exit_info1 & NPT_EXIT_INFO_PRESENT == 0 {
        shared.secondary_npt.map_4kb(faulting_pa, faulting_pa, AccessType::ReadWrite);
        shared.primary_npt.map_4kb(faulting_pa, faulting_pa, AccessType::ReadWriteExecute);

        return ExitType::Continue;
    }
    // The page was present, so this is an execute-permission fault caused by
    // this handler's own permission toggling. Is the guest entering a hooked
    // page?
    if let Some(hook) = hooks.find_hook(faulting_pa) {
        // Hook entry: make the secondary hierarchy fetch from the shadow
        // frame and switch the guest's walk to it. Contexts still walking
        // the primary hierarchy never observe the substitution.
        proof {
            hooks.lemma_found_hook_aligned(faulting_pa);
        }
        shared.secondary_npt.change_page_permission(
            faulting_pa,
            hook.page_pa,
            AccessType::ReadWriteExecute,
        );
        vcpu.guest_vmcb.control_area.ncr3 = shared.secondary_npt.pml4_pa();
    } else {
        // Hook exit or unrelated execute fault: restore the identity view so
        // the guest makes forward progress on the primary hierarchy.
        shared.primary_npt.change_page_permission(
            faulting_pa,
            faulting_pa,
            AccessType::ReadWriteExecute,
        );
        vcpu.guest_vmcb.control_area.ncr3 = shared.primary_npt.pml4_pa();
    }
    // The guest's active root changed: flush its TLB and make hardware
    // reload the cached nested-paging state on the next entry.
    vcpu.guest_vmcb.control_area.tlb_control = vcpu.guest_vmcb.control_area.tlb_control
        | TLB_CONTROL_FLUSH_GUEST_TLB;
    vcpu.guest_vmcb.control_area.vmcb_clean = vcpu.guest_vmcb.control_area.vmcb_clean
        & !VMCB_CLEAN_NP;

    ExitType::Continue
}

/// Law: the fault handler keeps the two hierarchies identical in mapping
/// layout — they map the same set of guest-physical pages afterwards
/// whenever they did before. The lazy path maps the faulting page in both,
/// and the present paths only retarget a leaf the page already has.
pub proof fn lemma_npf_preserves_same_layout(
    v0: VcpuData,
    s0: SharedData,
    hooks: Seq<Hook>,
    v1: VcpuData,
    s1: SharedData,
    e: ExitType,
)
    requires
        npf_transition(v0, s0, hooks, v1, s1, e),
        s0.primary_npt@.dom() == s0.secondary_npt@.dom(),
        npf_page_present(v0.guest_vmcb.control_area.exit_info1) ==> s0.primary_npt@.contains_key(
            spec_align_down(v0.guest_vmcb.control_area.exit_info2),
        ) && s0.secondary_npt@.contains_key(
            spec_align_down(v0.guest_vmcb.control_area.exit_info2),
        ),
    ensures
        s1.primary_npt@.dom() == s1.secondary_npt@.dom(),
{
    assert(s1.primary_npt@.dom() =~= s1.secondary_npt@.dom());
}

/// Law: the hook-entry transition is idempotent. Taking the same
/// present-page execute fault at a hooked page twice in a row leaves exactly
/// the state one occurrence leaves — the retargeted leaf, the active root,
/// the TLB-flush request and the clean bits do not accumulate.
pub proof fn lemma_hook_entry_idempotent(
    v0: VcpuData,
    s0: SharedData,
    hooks: Seq<Hook>,
    v1: VcpuData,
    s1: SharedData,
    e1: ExitType,
    v2: VcpuData,
    s2: SharedData,
    e2: ExitType,
)
    requires
        npf_page_present(v0.guest_vmcb.control_area.exit_info1),
        spec_find_hook(hooks, spec_align_down(v0.guest_vmcb.control_area.exit_info2)) is Some,
        npf_transition(v0, s0, hooks, v1, s1, e1),
        npf_transition(v1, s1, hooks, v2, s2, e2),
    ensures
        v2 == v1,
        e2 == e1,
        s2.primary_npt@ == s1.primary_npt@,
        s2.secondary_npt@ == s1.secondary_npt@,
        s2.primary_npt.root() == s1.primary_npt.root(),
        s2.secondary_npt.root() == s1.secondary_npt.root(),
{
    let ca0 = v0.guest_vmcb.control_area;
    assert(s2.secondary_npt@ =~= s1.secondary_npt@);
    let t = ca0.tlb_control;
    assert((t | TLB_CONTROL_FLUSH_GUEST_TLB) | TLB_CONTROL_FLUSH_GUEST_TLB == (t
        | TLB_CONTROL_FLUSH_GUEST_TLB)) by (bit_vector);
    let c = ca0.vmcb_clean;
    assert((c & !VMCB_CLEAN_NP) & !VMCB_CLEAN_NP == (c & !VMCB_CLEAN_NP)) by (bit_vector);
    assert(v2.guest_vmcb.control_area =~= v1.guest_vmcb.control_area);
    assert(v2 =~= v1);
}

} // verus!
