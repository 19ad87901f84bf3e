//! Core logic of an AMD-V (SVM) stealth-hooking hypervisor: nested page
//! table management, hook lookup, nested-page-fault handling, CPUID
//! interception and VM-exit dispatch, modelled over plain physical-address
//! values and verified.

pub mod cpuid;
pub mod dispatch;
pub mod hook;
pub mod npf;
pub mod npt;
pub mod paging;
pub mod ptr;
pub mod vcpu;
