//! CPUID interception: passthrough of the hardware-reported leaf, plus one
//! reserved leaf value used as a guest-to-hypervisor control signal that
//! requests devirtualization.

use vstd::prelude::*;

use crate::vcpu::{ExitType, GuestRegisters, VcpuData};

verus! {

/// Reserved CPUID leaf a cooperating guest loads to request that this
/// processor be devirtualized.
pub const CPUID_DEVIRTUALIZE: u32 = 0x4321_1234;

/// The four registers the CPU-identification instruction reports.
#[derive(Clone, Copy, PartialEq, Eq, Structural, Debug)]
pub struct CpuidResult {
    pub eax: u32,
    pub ebx: u32,
    pub ecx: u32,
    pub edx: u32,
}

/// Relies on x86::cpuid::native_cpuid::cpuid_count: executes the native
/// CPU-identification instruction for the given leaf and subleaf. What it
/// reports depends on the processor, so nothing is promised of the value.
#[verifier::external_body]
fn cpuid_count(leaf: u32, subleaf: u32) -> CpuidResult {
    let r = x86::cpuid::native_cpuid::cpuid_count(leaf, subleaf);
    CpuidResult { eax: r.eax, ebx: r.ebx, ecx: r.ecx, edx: r.edx }
}

/// Copies a CPU-identification result verbatim into the guest's
/// general-purpose registers, zero-extended to 64 bits; the registers the
/// instruction does not report keep their values.
pub fn write_cpuid_result(guest_regs: &mut GuestRegisters, cpuid: CpuidResult)
    ensures
        final(guest_regs).rax == cpuid.eax as u64,
        final(guest_regs).rbx == cpuid.ebx as u64,
        final(guest_regs).rcx == cpuid.ecx as u64,
        final(guest_regs).rdx == cpuid.edx as u64,
        final(guest_regs).rsi == old(guest_regs).rsi,
        final(guest_regs).rdi == old(guest_regs).rdi,
{
    guest_regs.rax = cpuid.eax as u64;
    guest_regs.rbx = cpuid.ebx as u64;
    guest_regs.rcx = cpuid.ecx as u64;
    guest_regs.rdx = cpuid.edx as u64;
}

/// Passthrough path: executes the native CPU-identification instruction with
/// the guest-supplied leaf (rax) and subleaf (rcx) and hands the four result
/// registers to the guest verbatim, then has the dispatcher advance the
/// guest past the trapped instruction. The reported values are the
/// processor's own, so the contract pins everything but them: each is a
/// zero-extended 32-bit value and the remaining registers are untouched.
pub fn handle_default(_vcpu: &mut VcpuData, guest_regs: &mut GuestRegisters) -> (exit: ExitType)
    ensures
        exit == ExitType::IncrementRIP,
        *final(_vcpu) == *old(_vcpu),
        final(guest_regs).rax <= u32::MAX,
        final(guest_regs).rbx <= u32::MAX,
        final(guest_regs).rcx <= u32::MAX,
        final(guest_regs).rdx <= u32::MAX,
        final(guest_regs).rsi == old(guest_regs).rsi,
        final(guest_regs).rdi == old(guest_regs).rdi,
{
    let leaf = guest_regs.rax;
    let subleaf = guest_regs.rcx;

    let cpuid = cpuid_count(leaf as u32, subleaf as u32);
    write_cpuid_result(guest_regs, cpuid);

    ExitType::IncrementRIP
}

/// Control-channel path: the guest asked for devirtualization; signal the
/// dispatcher to tear down virtualization for this processor, mutating
/// nothing.
pub fn handle_devirtualize(_vcpu: &mut VcpuData, _guest_regs: &mut GuestRegisters) -> (exit:
    ExitType)
    ensures
        exit == ExitType::ExitHypervisor,
        *final(_vcpu) == *old(_vcpu),
        *final(_guest_regs) == *old(_guest_regs),
{
    ExitType::ExitHypervisor
}

/// Everything one CPUID exit does: the reserved leaf turns into an
/// unconditional devirtualization signal with the registers untouched; any
/// other leaf is passed through to hardware, whose four reported values are
/// written to the guest zero-extended.
pub open spec fn cpuid_transition(
    old_vcpu: VcpuData,
    old_regs: GuestRegisters,
    new_vcpu: VcpuData,
    new_regs: GuestRegisters,
    exit: ExitType,
) -> bool {
    &&& new_vcpu == old_vcpu
    &&& new_regs.rsi == old_regs.rsi
    &&& new_regs.rdi == old_regs.rdi
    &&& if old_regs.rax == CPUID_DEVIRTUALIZE as u64 {
        exit == ExitType::ExitHypervisor && new_regs == old_regs
    } else {
        &&& exit == ExitType::IncrementRIP
        &&& new_regs.rax <= u32::MAX
        &&& new_regs.rbx <= u32::MAX
        &&& new_regs.rcx <= u32::MAX
        &&& new_regs.rdx <= u32::MAX
    }
}

/// Classifies a CPUID exit: the reserved control leaf requests
/// devirtualization, every other leaf is passed through.
pub fn handle_cpuid(vcpu: &mut VcpuData, guest_regs: &mut GuestRegisters) -> (exit: ExitType)
    ensures
        cpuid_transition(*old(vcpu), *old(guest_regs), *final(vcpu), *final(guest_regs), exit),
{
    if guest_regs.rax == CPUID_DEVIRTUALIZE as u64 {
        handle_devirtualize(vcpu, guest_regs)
    } else {
        handle_default(vcpu, guest_regs)
    }
}

} // verus!
