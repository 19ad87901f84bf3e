use svm_hook_core::hook::{Hook, HookManager};
use svm_hook_core::npf::handle_npf;
use svm_hook_core::npt::{AccessType, NptHierarchy};
use svm_hook_core::vcpu::{
    ControlArea, ExitType, GuestRegisters, SharedData, VcpuData, Vmcb, TLB_CONTROL_FLUSH_GUEST_TLB,
    VMCB_CLEAN_NP, VMEXIT_NPF,
};

fn fresh_shared() -> SharedData {
    SharedData {
        primary_npt: NptHierarchy::new(0x7000),
        secondary_npt: NptHierarchy::new(0x8000),
    }
}

fn npf_vcpu(exit_info1: u64, exit_info2: u64) -> VcpuData {
    VcpuData {
        guest_vmcb: Vmcb {
            control_area: ControlArea {
                exit_code: VMEXIT_NPF,
                exit_info1,
                exit_info2,
                ncr3: 0,
                tlb_control: 0,
                vmcb_clean: 0xffff_ffff,
            },
        },
    }
}

fn regs() -> GuestRegisters {
    GuestRegisters { rax: 1, rbx: 2, rcx: 3, rdx: 4, rsi: 5, rdi: 6 }
}

#[test]
fn lazy_mapping_first_fault() {
    let mut shared = fresh_shared();
    let mut vcpu = npf_vcpu(0, 0x5000);
    let mut r = regs();
    let hooks = HookManager::new(vec![]);

    let exit = handle_npf(&mut vcpu, &mut r, &mut shared, &hooks);

    assert_eq!(exit, ExitType::Continue);
    assert_eq!(
        shared.secondary_npt.lookup(0x5000),
        Some((0x5000, AccessType::ReadWrite))
    );
    assert_eq!(
        shared.primary_npt.lookup(0x5000),
        Some((0x5000, AccessType::ReadWriteExecute))
    );
    // The processor state is untouched on the lazy-mapping path.
    assert_eq!(vcpu, npf_vcpu(0, 0x5000));
    assert_eq!(r, regs());
}

#[test]
fn lazy_mapping_aligns_faulting_address() {
    let mut shared = fresh_shared();
    let mut vcpu = npf_vcpu(0, 0x5fff);
    let mut r = regs();
    let hooks = HookManager::new(vec![]);

    let exit = handle_npf(&mut vcpu, &mut r, &mut shared, &hooks);

    assert_eq!(exit, ExitType::Continue);
    assert_eq!(
        shared.secondary_npt.lookup(0x5000),
        Some((0x5000, AccessType::ReadWrite))
    );
    assert_eq!(
        shared.primary_npt.lookup(0x5000),
        Some((0x5000, AccessType::ReadWriteExecute))
    );
}

#[test]
fn lazy_mapping_largest_page() {
    let mut shared = fresh_shared();
    let mut vcpu = npf_vcpu(0, u64::MAX);
    let mut r = regs();
    let hooks = HookManager::new(vec![]);

    let exit = handle_npf(&mut vcpu, &mut r, &mut shared, &hooks);

    assert_eq!(exit, ExitType::Continue);
    assert_eq!(
        shared.primary_npt.lookup(0xffff_ffff_ffff_f000),
        Some((0xffff_ffff_ffff_f000, AccessType::ReadWriteExecute))
    );
}

#[test]
fn hook_entry_switches_to_shadow() {
    let mut shared = fresh_shared();
    shared
        .secondary_npt
        .map_4kb(0x1000, 0x1000, AccessType::ReadWrite);
    shared
        .primary_npt
        .map_4kb(0x1000, 0x1000, AccessType::ReadWriteExecute);
    let hooks = HookManager::new(vec![Hook {
        original_pa: 0x1000,
        page_pa: 0x2000,
        trampoline: 0x9000,
    }]);
    let mut vcpu = npf_vcpu(1, 0x1000);
    let mut r = regs();

    let exit = handle_npf(&mut vcpu, &mut r, &mut shared, &hooks);

    assert_eq!(exit, ExitType::Continue);
    assert_eq!(
        shared.secondary_npt.lookup(0x1000),
        Some((0x2000, AccessType::ReadWriteExecute))
    );
    // Data reads through the primary hierarchy still see the original frame.
    assert_eq!(
        shared.primary_npt.lookup(0x1000),
        Some((0x1000, AccessType::ReadWriteExecute))
    );
    let ca = vcpu.guest_vmcb.control_area;
    assert_eq!(ca.ncr3, shared.secondary_npt.pml4_pa());
    assert_eq!(
        ca.tlb_control & TLB_CONTROL_FLUSH_GUEST_TLB,
        TLB_CONTROL_FLUSH_GUEST_TLB
    );
    assert_eq!(ca.vmcb_clean & VMCB_CLEAN_NP, 0);
    assert_eq!(r, regs());
}

#[test]
fn fallback_restores_identity() {
    let mut shared = fresh_shared();
    shared
        .secondary_npt
        .map_4kb(0x3000, 0x3000, AccessType::ReadWrite);
    shared
        .primary_npt
        .map_4kb(0x3000, 0x3000, AccessType::ReadWriteExecute);
    let hooks = HookManager::new(vec![Hook {
        original_pa: 0x1000,
        page_pa: 0x2000,
        trampoline: 0x9000,
    }]);
    let mut vcpu = npf_vcpu(1, 0x3000);
    let mut r = regs();

    let exit = handle_npf(&mut vcpu, &mut r, &mut shared, &hooks);

    assert_eq!(exit, ExitType::Continue);
    assert_eq!(
        shared.primary_npt.lookup(0x3000),
        Some((0x3000, AccessType::ReadWriteExecute))
    );
    assert_eq!(
        shared.secondary_npt.lookup(0x3000),
        Some((0x3000, AccessType::ReadWrite))
    );
    let ca = vcpu.guest_vmcb.control_area;
    assert_eq!(ca.ncr3, shared.primary_npt.pml4_pa());
    assert_eq!(
        ca.tlb_control & TLB_CONTROL_FLUSH_GUEST_TLB,
        TLB_CONTROL_FLUSH_GUEST_TLB
    );
    assert_eq!(ca.vmcb_clean & VMCB_CLEAN_NP, 0);
}

#[test]
fn fallback_with_empty_registry() {
    // The fallback must be taken even when no hook exists anywhere, to
    // guarantee forward progress.
    let mut shared = fresh_shared();
    shared
        .secondary_npt
        .map_4kb(0x4000, 0x4000, AccessType::ReadWrite);
    shared
        .primary_npt
        .map_4kb(0x4000, 0x4000, AccessType::ReadWriteExecute);
    let hooks = HookManager::new(vec![]);
    let mut vcpu = npf_vcpu(1, 0x4000);
    let mut r = regs();

    let exit = handle_npf(&mut vcpu, &mut r, &mut shared, &hooks);

    assert_eq!(exit, ExitType::Continue);
    assert_eq!(vcpu.guest_vmcb.control_area.ncr3, shared.primary_npt.pml4_pa());
}

#[test]
fn hook_entry_idempotent() {
    let hooks = HookManager::new(vec![Hook {
        original_pa: 0x1000,
        page_pa: 0x2000,
        trampoline: 0x9000,
    }]);
    let mut shared = fresh_shared();
    shared
        .secondary_npt
        .map_4kb(0x1000, 0x1000, AccessType::ReadWrite);
    shared
        .primary_npt
        .map_4kb(0x1000, 0x1000, AccessType::ReadWriteExecute);
    let mut vcpu = npf_vcpu(1, 0x1000);
    let mut r = regs();

    let first_exit = handle_npf(&mut vcpu, &mut r, &mut shared, &hooks);
    let vcpu_after_one = vcpu;
    let shared_after_one = shared.clone();

    let second_exit = handle_npf(&mut vcpu, &mut r, &mut shared, &hooks);

    assert_eq!(first_exit, ExitType::Continue);
    assert_eq!(second_exit, first_exit);
    assert_eq!(vcpu, vcpu_after_one);
    assert_eq!(shared, shared_after_one);
}
