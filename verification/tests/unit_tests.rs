use svm_hook_core::hook::{Hook, HookManager};
use svm_hook_core::npt::{AccessType, NptHierarchy};
use svm_hook_core::paging::{
    bytes_to_pages, page_align, page_to_pfn, PhysicalAddress, PAGE_MASK, PAGE_SHIFT, PAGE_SIZE,
    PFN_MASK,
};
use svm_hook_core::ptr::Pointer;

#[test]
fn paging_constants() {
    assert_eq!(PAGE_SHIFT, 12);
    assert_eq!(PAGE_SIZE, 0x1000);
    assert_eq!(PAGE_MASK, !0xfffusize);
    assert_eq!(PFN_MASK, ((1u64 << 52) - 1) & !0xfff);
}

#[test]
fn page_align_rounds_up() {
    assert_eq!(page_align(4097), 8192);
    assert_eq!(page_align(4096), 4096);
    assert_eq!(page_align(0), 0);
    assert_eq!(page_align(1), 4096);
}

#[test]
fn page_to_pfn_shifts_out_offset() {
    assert_eq!(page_to_pfn(0x5000), 5);
    assert_eq!(page_to_pfn(0), 0);
    assert_eq!(page_to_pfn(0x123000), 0x123);
}

#[test]
fn bytes_to_pages_counts_whole_pages() {
    assert_eq!(bytes_to_pages(0x2000), 2);
    assert_eq!(bytes_to_pages(0x2001), 2);
    assert_eq!(bytes_to_pages(0xfff), 0);
}

#[test]
fn physical_address_aligns_down() {
    let pa = PhysicalAddress::from_pa(0x1234);
    assert_eq!(pa.align_down_to_base_page().as_u64(), 0x1000);
    assert_eq!(PhysicalAddress::from_pa(0x1000).align_down_to_base_page().as_u64(), 0x1000);
    assert_eq!(PhysicalAddress::from_pa(0xfff).align_down_to_base_page().as_u64(), 0);
    assert_eq!(PhysicalAddress::from_pa(0x42).as_u64(), 0x42);
}

#[test]
fn pointer_rejects_null() {
    assert!(Pointer::new(0).is_none());
}

#[test]
fn pointer_carries_address() {
    let p = Pointer::new(0xdead_b000).unwrap();
    assert_eq!(p.inner(), 0xdead_b000);
    assert_eq!(p.as_ptr(), 0xdead_b000);
}

#[test]
fn find_hook_matches_original_page() {
    let hooks = HookManager::new(vec![
        Hook { original_pa: 0x1000, page_pa: 0x2000, trampoline: 0x9000 },
        Hook { original_pa: 0x5000, page_pa: 0x6000, trampoline: 0xa000 },
    ]);
    assert_eq!(hooks.len(), 2);
    let h = hooks.find_hook(0x5000).unwrap();
    assert_eq!(h.original_pa, 0x5000);
    assert_eq!(h.page_pa, 0x6000);
    assert_eq!(h.trampoline, 0xa000);
    assert!(hooks.find_hook(0x3000).is_none());
}

#[test]
fn find_hook_returns_first_match() {
    let hooks = HookManager::new(vec![
        Hook { original_pa: 0x1000, page_pa: 0x2000, trampoline: 0x9000 },
        Hook { original_pa: 0x1000, page_pa: 0x4000, trampoline: 0xb000 },
    ]);
    assert_eq!(hooks.find_hook(0x1000).unwrap().page_pa, 0x2000);
}

#[test]
fn npt_map_and_lookup() {
    let mut npt = NptHierarchy::new(0x7000);
    assert_eq!(npt.pml4_pa(), 0x7000);
    assert_eq!(npt.lookup(0x1000), None);

    npt.map_4kb(0x1000, 0x1000, AccessType::ReadWrite);
    assert_eq!(npt.lookup(0x1000), Some((0x1000, AccessType::ReadWrite)));
    assert_eq!(npt.lookup(0x2000), None);

    // Mapping the same page again overwrites the leaf in place.
    npt.map_4kb(0x1000, 0x8000, AccessType::ReadWriteExecute);
    assert_eq!(npt.lookup(0x1000), Some((0x8000, AccessType::ReadWriteExecute)));
}

#[test]
fn npt_change_page_permission() {
    let mut npt = NptHierarchy::new(0x7000);
    npt.map_4kb(0x1000, 0x1000, AccessType::ReadWrite);
    npt.map_4kb(0x3000, 0x3000, AccessType::ReadWrite);

    npt.change_page_permission(0x1000, 0x2000, AccessType::ReadWriteExecute);
    assert_eq!(npt.lookup(0x1000), Some((0x2000, AccessType::ReadWriteExecute)));
    // The other leaf is untouched.
    assert_eq!(npt.lookup(0x3000), Some((0x3000, AccessType::ReadWrite)));
    assert_eq!(npt.pml4_pa(), 0x7000);
}

#[test]
fn npt_page_zero_is_a_valid_key() {
    let mut npt = NptHierarchy::new(0x7000);
    npt.map_4kb(0, 0, AccessType::ReadWriteExecute);
    assert_eq!(npt.lookup(0), Some((0, AccessType::ReadWriteExecute)));
}
