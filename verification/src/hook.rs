//! Hook registry: immutable-after-init descriptors binding an original code
//! page to its shadow (replacement) page and trampoline continuation, with
//! lookup by faulting physical address.

use vstd::prelude::*;

use crate::paging::is_page_aligned;

verus! {

/// Immutable hook descriptor: the physical address of the original code
/// page, the physical address of the shadow page substituted for
/// instruction fetch (`page_pa`), and the trampoline address that resumes
/// the original function's remaining logic.
#[derive(Clone, Copy, PartialEq, Eq, Structural, Debug)]
pub struct Hook {
    pub original_pa: u64,
    pub page_pa: u64,
    pub trampoline: u64,
}

/// First descriptor whose original page matches `pa`, if any.
pub open spec fn spec_find_hook(hooks: Seq<Hook>, pa: u64) -> Option<Hook>
    decreases hooks.len(),
{
    if hooks.len() == 0 {
        None
    } else if hooks[0].original_pa == pa {
        Some(hooks[0])
    } else {
        spec_find_hook(hooks.drop_first(), pa)
    }
}

/// A found descriptor matches the queried page, and names page-aligned
/// pages whenever every registered descriptor does.
proof fn lemma_find_hook_props(hooks: Seq<Hook>, pa: u64)
    requires
        forall|i: int|
            0 <= i < hooks.len() ==> is_page_aligned(#[trigger] hooks[i].original_pa)
                && is_page_aligned(hooks[i].page_pa),
    ensures
        spec_find_hook(hooks, pa) matches Some(h) ==> h.original_pa == pa && is_page_aligned(
            h.original_pa,
        ) && is_page_aligned(h.page_pa),
    decreases hooks.len(),
{
    if hooks.len() > 0 && hooks[0].original_pa != pa {
        assert(forall|i: int|
            0 <= i < hooks.drop_first().len() ==> #[trigger] hooks.drop_first()[i] == hooks[i + 1]);
        lemma_find_hook_props(hooks.drop_first(), pa);
    }
}

/// The registry of hook descriptors, built once before any processor is
/// virtualized and read-only afterwards.
#[derive(Clone, PartialEq, Debug)]
pub struct HookManager {
    hooks: Vec<Hook>,
}

impl HookManager {
    /// The descriptors, in registration order.
    pub closed spec fn view(&self) -> Seq<Hook> {
        self.hooks@
    }

    /// Every descriptor names page-aligned original and shadow pages.
    pub open spec fn wf(&self) -> bool {
        forall|i: int|
            0 <= i < self@.len() ==> is_page_aligned(#[trigger] self@[i].original_pa)
                && is_page_aligned(self@[i].page_pa)
    }

    /// Builds the registry from the descriptors the hook installer returned.
    pub fn new(hooks: Vec<Hook>) -> (r: HookManager)
        ensures
            r@ == hooks@,
    {
        HookManager { hooks }
    }

    /// How many hooks are registered.
    pub fn len(&self) -> (n: usize)
        ensures
            n == self@.len(),
    {
        self.hooks.len()
    }

    /// With a well-formed registry, a found descriptor matches the queried
    /// page and names page-aligned original and shadow pages.
    pub proof fn lemma_found_hook_aligned(&self, pa: u64)
        requires
            self.wf(),
        ensures
            spec_find_hook(self@, pa) matches Some(h) ==> h.original_pa == pa && is_page_aligned(
                h.original_pa,
            ) && is_page_aligned(h.page_pa),
    {
        lemma_find_hook_props(self@, pa);
    }

    /// Returns the descriptor whose original page matches the (page-aligned)
    /// faulting physical address, or nothing when the fault is not a hook
    /// event.
    pub fn find_hook(&self, phys_addr: u64) -> (r: Option<Hook>)
        ensures
            r == spec_find_hook(self@, phys_addr),
    {
        proof {
            assert(self@.skip(0) =~= self@);
        }
        let n = self.hooks.len();
        let mut i: usize = 0;
        while i < n
            invariant
                i <= n,
                n == self@.len(),
                spec_find_hook(self@, phys_addr) == spec_find_hook(
                    self@.skip(i as int),
                    phys_addr,
                ),
            decreases n - i,
        {
            proof {
                assert(self@.skip(i as int).drop_first() =~= self@.skip(i as int + 1));
            }
            if self.hooks[i].original_pa == phys_addr {
                return Some(self.hooks[i]);
            }
            i = i + 1;
        }
        None
    }
}

} // verus!
