//! Page-size constants and physical-address arithmetic used by the nested
//! page tables and the fault handler.

use vstd::prelude::*;

verus! {

/// Number of address bits below the 4 KiB page boundary.
pub const PAGE_SHIFT: u64 = 12;

/// Size of a base (4 KiB) page in bytes.
pub const PAGE_SIZE: usize = 0x1000;

/// Mask that clears the in-page offset of a virtual address.
pub const PAGE_MASK: usize = !(0x1000usize - 1);

/// Mask of the page-frame bits of a physical address: AMD64 architecturally
/// caps physical addresses at 52 bits, and the low 12 bits are the in-page
/// offset.
pub const PFN_MASK: u64 = 0x000F_FFFF_FFFF_F000;

/// A page is aligned when its low 12 bits are clear.
pub open spec fn is_page_aligned(pa: u64) -> bool {
    pa % 4096 == 0
}

/// Mathematical "align down to the containing 4 KiB page".
pub open spec fn spec_align_down(pa: u64) -> u64 {
    (pa - (pa % 4096)) as u64
}

/// Converts a page address to a page frame number.
pub fn page_to_pfn(page: u64) -> (pfn: u64)
    ensures
        pfn == page / 4096,
{
    proof {
        assert(page >> 12 == page / 4096) by (bit_vector);
    }
    page >> PAGE_SHIFT
}

/// Calculates how many whole pages the specified number of bytes covers.
pub fn bytes_to_pages(bytes: usize) -> (pages: usize)
    ensures
        pages == bytes / 4096,
{
    proof {
        assert(bytes >> 12 == bytes / 4096) by (bit_vector);
    }
    bytes >> 12
}

/// Aligns the specified virtual address up to the next page boundary.
pub fn page_align(virtual_address: usize) -> (aligned: usize)
    requires
        virtual_address + 4095 <= usize::MAX,
    ensures
        aligned % 4096 == 0,
        virtual_address <= aligned < virtual_address + 4096,
{
    let x = virtual_address + (PAGE_SIZE - 1);
    proof {
        let v = virtual_address;
        let xg = x;
        assert((xg & !0xfffusize) % 4096 == 0 && (xg == v + 4095 ==> v <= (xg & !0xfffusize) < v
            + 4096)) by (bit_vector);
    }
    x & PAGE_MASK
}

/// A validated 64-bit physical address; a plain value with page-alignment
/// helpers.
#[derive(Clone, Copy, PartialEq, Eq, Structural, Debug)]
pub struct PhysicalAddress {
    value: u64,
}

impl PhysicalAddress {
    /// The raw 64-bit address this value stands for.
    pub closed spec fn view(&self) -> u64 {
        self.value
    }

    pub fn from_pa(pa: u64) -> (r: PhysicalAddress)
        ensures
            r@ == pa,
    {
        PhysicalAddress { value: pa }
    }

    /// Aligns the address down to the base (4 KiB) page that contains it.
    pub fn align_down_to_base_page(self) -> (r: PhysicalAddress)
        ensures
            r@ == spec_align_down(self@),
            is_page_aligned(r@),
            r@ <= self@ < r@ + 4096,
    {
        proof {
            let v = self.value;
            assert((v & !0xfffu64) == v - (v % 4096) && (v & !0xfffu64) % 4096 == 0 && (v
                & !0xfffu64) <= v < (v & !0xfffu64) + 4096) by (bit_vector);
        }
        PhysicalAddress { value: self.value & !0xfff }
    }

    pub fn as_u64(self) -> (r: u64)
        ensures
            r == self@,
    {
        self.value
    }
}

} // verus!
