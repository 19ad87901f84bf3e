//! Per-logical-processor control state: the modelled VMCB control-area
//! fields the dispatcher and fault handler consult and mutate, the guest
//! general-purpose registers, the continuation directive a handler returns,
//! and the data shared by all processors of the guest.

use vstd::prelude::*;

use crate::npt::NptHierarchy;

verus! {

/// Bit of EXITINFO1 that says the faulting page was present (the fault is a
/// permission violation, not a first touch).
pub const NPT_EXIT_INFO_PRESENT: u64 = 1;

/// TLB_CONTROL encoding that asks hardware to flush this guest's TLB on the
/// next entry.
pub const TLB_CONTROL_FLUSH_GUEST_TLB: u64 = 3;

/// VMCB clean bit (bit 4) for nested-paging state; while set, hardware may
/// reuse its cached copy of the nested-paging control fields.
pub const VMCB_CLEAN_NP: u64 = 0x10;

/// Exit code of a CPUID interception.
pub const VMEXIT_CPUID: u64 = 0x72;

/// Exit code of a nested page fault.
pub const VMEXIT_NPF: u64 = 0x400;

/// Continuation directive a VM-exit handler returns to the dispatch loop.
#[derive(Clone, Copy, PartialEq, Eq, Structural, Debug)]
pub enum ExitType {
    /// Resume the guest without touching its instruction pointer.
    Continue,
    /// Resume the guest after advancing past the trapped instruction.
    IncrementRIP,
    /// Tear down virtualization for this processor; terminal.
    ExitHypervisor,
}

/// Guest general-purpose registers read and written by CPUID passthrough.
#[derive(Clone, Copy, PartialEq, Eq, Structural, Debug)]
pub struct GuestRegisters {
    pub rax: u64,
    pub rbx: u64,
    pub rcx: u64,
    pub rdx: u64,
    pub rsi: u64,
    pub rdi: u64,
}

/// Modelled VMCB control area: what hardware reports about the exit and what
/// the handlers hand back for the next entry.
#[derive(Clone, Copy, PartialEq, Eq, Structural, Debug)]
pub struct ControlArea {
    /// Exit reason code of the most recent VM-exit.
    pub exit_code: u64,
    /// Fault-cause bitset of a nested page fault (EXITINFO1).
    pub exit_info1: u64,
    /// Faulting guest-physical address of a nested page fault (EXITINFO2).
    pub exit_info2: u64,
    /// Root of the nested-page-table hierarchy the guest's walk uses.
    pub ncr3: u64,
    /// TLB control request field.
    pub tlb_control: u64,
    /// Clean bits: which cached control fields hardware may keep.
    pub vmcb_clean: u64,
}

/// Guest VMCB as far as this core consults it.
#[derive(Clone, Copy, PartialEq, Eq, Structural, Debug)]
pub struct Vmcb {
    pub control_area: ControlArea,
}

/// Per-logical-processor state owned exclusively by that processor.
#[derive(Clone, Copy, PartialEq, Eq, Structural, Debug)]
pub struct VcpuData {
    pub guest_vmcb: Vmcb,
}

/// State logically shared by all logical processors of the guest: the two
/// nested-page-table hierarchies.
#[derive(Clone, PartialEq, Debug)]
pub struct SharedData {
    /// Default hierarchy: identity mapping, hook page kept at the original
    /// frame so ordinary reads and execution see real code.
    pub primary_npt: NptHierarchy,
    /// Hierarchy switched in while the guest executes inside a hooked page;
    /// its hook leaf is retargeted at the shadow frame.
    pub secondary_npt: NptHierarchy,
}

/// The fault-cause bitset says the page was present.
pub open spec fn npf_page_present(exit_info1: u64) -> bool {
    exit_info1 & NPT_EXIT_INFO_PRESENT != 0
}

/// A guest-TLB flush has been requested in the TLB control field.
pub open spec fn tlb_flush_requested(tlb_control: u64) -> bool {
    tlb_control & TLB_CONTROL_FLUSH_GUEST_TLB == TLB_CONTROL_FLUSH_GUEST_TLB
}

} // verus!
