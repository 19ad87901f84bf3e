//! Nested page table (NPT) hierarchies: second-level translation structures
//! mapping guest-physical pages to host-physical frames, each leaf carrying
//! one access tag. Two independent instances ("primary" and "secondary")
//! exist at runtime; which one the guest walks is selected by the active
//! root pointer.

use vstd::prelude::*;

use crate::paging::is_page_aligned;

verus! {

/// Access policy of a nested-page-table leaf.
#[derive(Clone, Copy, PartialEq, Eq, Structural, Debug)]
pub enum AccessType {
    ReadWrite,
    ReadWriteExecute,
}

/// One leaf mapping: a guest-physical page resolved to a host-physical frame
/// with an access tag.
#[derive(Clone, Copy, PartialEq, Eq, Structural, Debug)]
struct NptEntry {
    gpa: u64,
    hpa: u64,
    access: AccessType,
}

/// An owned nested-page-table hierarchy rooted at one page-aligned physical
/// frame. Abstractly it is a finite map from page-aligned guest-physical
/// page addresses to `(host frame, access tag)` pairs: every mapped page
/// resolves to exactly one frame with exactly one tag, and an unmapped page
/// faults.
#[derive(Clone, PartialEq, Debug)]
pub struct NptHierarchy {
    pml4_pa: u64,
    entries: Vec<NptEntry>,
}

/// The map a sequence of leaves denotes; a later leaf with the same page
/// overrides an earlier one.
spec fn seq_to_map(s: Seq<NptEntry>) -> Map<u64, (u64, AccessType)>
    decreases s.len(),
{
    if s.len() == 0 {
        Map::empty()
    } else {
        seq_to_map(s.drop_last()).insert(s.last().gpa, (s.last().hpa, s.last().access))
    }
}

/// A key absent from every leaf is absent from the denoted map.
proof fn lemma_seq_to_map_absent(s: Seq<NptEntry>, gpa: u64)
    requires
        forall|i: int| 0 <= i < s.len() ==> s[i].gpa != gpa,
    ensures
        !seq_to_map(s).contains_key(gpa),
    decreases s.len(),
{
    if s.len() > 0 {
        lemma_seq_to_map_absent(s.drop_last(), gpa);
    }
}

/// With pairwise-distinct pages, the leaf at any index gives the denoted
/// map's value for its page.
proof fn lemma_seq_to_map_at(s: Seq<NptEntry>, i: int)
    requires
        forall|j: int, k: int| 0 <= j < k < s.len() ==> s[j].gpa != s[k].gpa,
        0 <= i < s.len(),
    ensures
        seq_to_map(s).contains_key(s[i].gpa),
        seq_to_map(s)[s[i].gpa] == (s[i].hpa, s[i].access),
    decreases s.len(),
{
    if i == s.len() - 1 {
    } else {
        lemma_seq_to_map_at(s.drop_last(), i);
    }
}

/// Overwriting the leaf at index `i` in place, keeping its page, denotes an
/// insert on the map.
proof fn lemma_seq_to_map_update(s: Seq<NptEntry>, i: int, e: NptEntry)
    requires
        forall|j: int, k: int| 0 <= j < k < s.len() ==> s[j].gpa != s[k].gpa,
        0 <= i < s.len(),
        e.gpa == s[i].gpa,
    ensures
        seq_to_map(s.update(i, e)) == seq_to_map(s).insert(e.gpa, (e.hpa, e.access)),
    decreases s.len(),
{
    let t = s.update(i, e);
    if i == s.len() - 1 {
        assert(t.drop_last() =~= s.drop_last());
        assert(seq_to_map(t) =~= seq_to_map(s).insert(e.gpa, (e.hpa, e.access)));
    } else {
        assert(t.drop_last() =~= s.drop_last().update(i, e));
        lemma_seq_to_map_update(s.drop_last(), i, e);
        assert(s.last().gpa != e.gpa);
        assert(seq_to_map(t) =~= seq_to_map(s).insert(e.gpa, (e.hpa, e.access)));
    }
}

/// Appending a leaf denotes an insert on the map.
proof fn lemma_seq_to_map_push(s: Seq<NptEntry>, e: NptEntry)
    ensures
        seq_to_map(s.push(e)) == seq_to_map(s).insert(e.gpa, (e.hpa, e.access)),
{
    assert(s.push(e).drop_last() =~= s);
}

impl NptHierarchy {
    /// The mapping this hierarchy presents to the guest's page walk.
    pub closed spec fn view(&self) -> Map<u64, (u64, AccessType)> {
        seq_to_map(self.entries@)
    }

    /// Physical address of the hierarchy's root (PML4) frame.
    pub closed spec fn root(&self) -> u64 {
        self.pml4_pa
    }

    /// Structural invariant: the root frame is a valid page-aligned non-null
    /// frame, every leaf's page and frame are page-aligned, and no two
    /// leaves claim the same guest-physical page.
    pub closed spec fn wf(&self) -> bool {
        &&& self.pml4_pa != 0
        &&& is_page_aligned(self.pml4_pa)
        &&& forall|i: int|
            0 <= i < self.entries@.len() ==> is_page_aligned(#[trigger] self.entries@[i].gpa)
                && is_page_aligned(self.entries@[i].hpa)
        &&& forall|j: int, k: int|
            0 <= j < k < self.entries@.len() ==> self.entries@[j].gpa != self.entries@[k].gpa
    }

    /// Every page a well-formed hierarchy maps is page-aligned.
    pub proof fn lemma_mapped_pages_aligned(&self)
        requires
            self.wf(),
        ensures
            forall|g: u64| #[trigger] self@.contains_key(g) ==> is_page_aligned(g),
    {
        assert forall|g: u64| #[trigger] self@.contains_key(g) implies is_page_aligned(g) by {
            if forall|i: int| 0 <= i < self.entries@.len() ==> self.entries@[i].gpa != g {
                lemma_seq_to_map_absent(self.entries@, g);
            }
        }
    }

    /// Builds an empty hierarchy rooted at the given (already allocated,
    /// zeroed) page-aligned frame.
    pub fn new(pml4_pa: u64) -> (r: NptHierarchy)
        requires
            pml4_pa != 0,
            is_page_aligned(pml4_pa),
        ensures
            r.wf(),
            r.root() == pml4_pa,
            r@ == Map::<u64, (u64, AccessType)>::empty(),
    {
        NptHierarchy { pml4_pa, entries: Vec::new() }
    }

    /// Physical address of the root frame, as loaded into the guest's
    /// nested CR3.
    pub fn pml4_pa(&self) -> (r: u64)
        ensures
            r == self.root(),
    {
        self.pml4_pa
    }

    /// Index of the leaf for `gpa`, if one exists.
    fn find_index(&self, gpa: u64) -> (r: Option<usize>)
        ensures
            match r {
                Some(i) => i < self.entries@.len() && self.entries@[i as int].gpa == gpa,
                None => forall|i: int| 0 <= i < self.entries@.len() ==> self.entries@[i].gpa != gpa,
            },
    {
        let n = self.entries.len();
        let mut i: usize = 0;
        while i < n
            invariant
                i <= n,
                n == self.entries@.len(),
                forall|j: int| 0 <= j < i ==> self.entries@[j].gpa != gpa,
            decreases n - i,
        {
            if self.entries[i].gpa == gpa {
                return Some(i);
            }
            i = i + 1;
        }
        None
    }

    /// What the hierarchy resolves `gpa` to: the host frame and access tag of
    /// its leaf, or nothing when the page is unmapped (a walk would fault).
    pub fn lookup(&self, gpa: u64) -> (r: Option<(u64, AccessType)>)
        requires
            self.wf(),
        ensures
            self@.contains_key(gpa) ==> r == Some(self@[gpa]),
            !self@.contains_key(gpa) ==> r is None,
    {
        match self.find_index(gpa) {
            Some(i) => {
                proof {
                    lemma_seq_to_map_at(self.entries@, i as int);
                }
                let e = self.entries[i];
                Some((e.hpa, e.access))
            },
            None => {
                proof {
                    lemma_seq_to_map_absent(self.entries@, gpa);
                }
                None
            },
        }
    }

    /// Inserts or overwrites the leaf mapping for the page-aligned
    /// guest-physical page `gpa`, pointing it at the page-aligned
    /// host-physical frame `hpa` with the given access tag. Intermediate
    /// table levels are the allocator's concern and never fail here.
    pub fn map_4kb(&mut self, gpa: u64, hpa: u64, access: AccessType)
        requires
            old(self).wf(),
            is_page_aligned(gpa),
            is_page_aligned(hpa),
        ensures
            final(self).wf(),
            final(self).root() == old(self).root(),
            final(self)@ == old(self)@.insert(gpa, (hpa, access)),
    {
        let e = NptEntry { gpa, hpa, access };
        match self.find_index(gpa) {
            Some(i) => {
                proof {
                    lemma_seq_to_map_update(self.entries@, i as int, e);
                }
                self.entries[i] = e;
            },
            None => {
                proof {
                    lemma_seq_to_map_push(self.entries@, e);
                }
                self.entries.push(e);
            },
        }
    }

    /// Updates the existing leaf for `gpa` to point at `hpa` with the given
    /// access tag. Calling this for a page with no leaf is a logic error —
    /// the lazy identity-mapping invariant was violated — so the contract
    /// rules it out rather than silently creating a mapping.
    pub fn change_page_permission(&mut self, gpa: u64, hpa: u64, access: AccessType)
        requires
            old(self).wf(),
            old(self)@.contains_key(gpa),
            is_page_aligned(hpa),
        ensures
            final(self).wf(),
            final(self).root() == old(self).root(),
            final(self)@ == old(self)@.insert(gpa, (hpa, access)),
    {
        match self.find_index(gpa) {
            Some(i) => {
                let e = NptEntry { gpa, hpa, access };
                proof {
                    lemma_seq_to_map_update(self.entries@, i as int, e);
                }
                self.entries[i] = e;
            },
            None => {
                proof {
                    lemma_seq_to_map_absent(self.entries@, gpa);
                }
                vstd::pervasive::unreached()
            },
        }
    }
}

} // verus!
