//! Non-null address handle.
//!
//! The validated stand-in for the kernel's non-null pointer convenience
//! type: it carries the address as a plain value and enforces the non-null
//! invariant at construction.

use vstd::prelude::*;

verus! {

/// A 64-bit address known to be non-null.
#[derive(Clone, Copy, PartialEq, Eq, Structural, Debug)]
pub struct Pointer {
    addr: u64,
}

impl Pointer {
    /// The address this handle carries.
    pub closed spec fn view(&self) -> u64 {
        self.addr
    }

    /// Non-null invariant, established by `new`.
    pub open spec fn wf(&self) -> bool {
        self@ != 0
    }

    /// Validates an address: a null address gives nothing, any other gives
    /// a handle carrying it.
    pub fn new(ptr: u64) -> (r: Option<Pointer>)
        ensures
            ptr == 0 <==> r is None,
            r matches Some(p) ==> p@ == ptr && p.wf(),
    {
        if ptr == 0 {
            None
        } else {
            Some(Pointer { addr: ptr })
        }
    }

    /// The carried address.
    pub fn inner(&self) -> (r: u64)
        ensures
            r == self@,
    {
        self.addr
    }

    /// The carried address, for handing to code that dereferences it.
    pub fn as_ptr(&self) -> (r: u64)
        ensures
            r == self@,
    {
        self.addr
    }
}

} // verus!
