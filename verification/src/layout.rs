//! The virtual memory layout table: a fixed-size, ordered table of address
//! ranges with their access attributes.
//!
//! The code that programs the MMU trusts the table to be sorted ascending by
//! start address, free of overlaps and within the address space. A table can
//! only be built through [`VirtualMemoryLayoutTable::new`], which checks
//! exactly that, so every table that exists is valid.

use vstd::prelude::*;

verus! {

/// How the memory system treats accesses to a range.
#[derive(Clone, Copy, PartialEq, Eq, Debug, Structural)]
pub enum MemoryClass {
    /// Device memory: strongly ordered, never cached.
    Device,
    /// Normal, cacheable memory.
    NormalCacheable,
}

/// What kind of access a range permits.
#[derive(Clone, Copy, PartialEq, Eq, Debug, Structural)]
pub enum AccessPermission {
    ReadOnly,
    ReadWrite,
}

/// The attributes of a range of addresses.
#[derive(Clone, Copy, PartialEq, Eq, Debug, Structural)]
pub struct Attributes {
    pub memory_class: MemoryClass,
    /// Whether instructions may be fetched from the range.
    pub executable: bool,
    pub access: AccessPermission,
}

/// A range of addresses, both ends included, with its attributes.
#[derive(Clone, Copy, PartialEq, Eq, Debug, Structural)]
pub struct MemoryRange {
    pub start: u64,
    pub end_inclusive: u64,
    pub attributes: Attributes,
}

impl MemoryRange {
    /// A range is well formed when it holds at least one address.
    pub open spec fn well_formed(self) -> bool {
        self.start <= self.end_inclusive
    }

    /// Whether `addr` lies in the range.
    pub open spec fn spec_covers(self, addr: u64) -> bool {
        self.start <= addr <= self.end_inclusive
    }

    /// Whether the two ranges have no address in common.
    pub open spec fn disjoint_from(self, other: MemoryRange) -> bool {
        self.end_inclusive < other.start || other.end_inclusive < self.start
    }

    /// Whether `addr` lies in the range.
    pub fn covers(&self, addr: u64) -> (covered: bool)
        ensures
            covered == self.spec_covers(addr),
    {
        self.start <= addr && addr <= self.end_inclusive
    }
}

/// Why a sequence of ranges is not a valid layout. Each variant names the
/// first entry, in table order, at which the defect shows.
#[derive(Clone, Copy, PartialEq, Eq, Debug, Structural)]
pub enum LayoutError {
    /// The entry starts after it ends.
    InvertedRange { index: usize },
    /// The entry ends beyond the highest address of the address space.
    OutOfBounds { index: usize },
    /// The entry starts before the entry in front of it.
    Unsorted { index: usize },
    /// The entry starts inside the entry in front of it.
    Overlap { index: usize },
}

/// Every range holds at least one address.
pub open spec fn all_well_formed(ranges: Seq<MemoryRange>) -> bool {
    forall|i: int| 0 <= i < ranges.len() ==> (#[trigger] ranges[i]).well_formed()
}

/// The ranges come in strictly ascending order of their start addresses.
pub open spec fn sorted_by_start(ranges: Seq<MemoryRange>) -> bool {
    forall|i: int, j: int|
        0 <= i < j < ranges.len() ==> (#[trigger] ranges[i]).start < (#[trigger] ranges[j]).start
}

/// No two ranges have an address in common.
pub open spec fn pairwise_disjoint(ranges: Seq<MemoryRange>) -> bool {
    forall|i: int, j: int|
        0 <= i < j < ranges.len() ==> (#[trigger] ranges[i]).disjoint_from(#[trigger] ranges[j])
}

/// No range reaches beyond `max_inclusive`.
pub open spec fn all_within(max_inclusive: u64, ranges: Seq<MemoryRange>) -> bool {
    forall|i: int| 0 <= i < ranges.len() ==> (#[trigger] ranges[i]).end_inclusive <= max_inclusive
}

/// What the MMU setup relies on: well-formed ranges, sorted ascending by
/// start, pairwise disjoint, none beyond the highest address.
pub open spec fn valid_layout(max_inclusive: u64, ranges: Seq<MemoryRange>) -> bool {
    &&& all_well_formed(ranges)
    &&& sorted_by_start(ranges)
    &&& pairwise_disjoint(ranges)
    &&& all_within(max_inclusive, ranges)
}

/// The defect of entry `i`, judged on its own and against the entry in front
/// of it, or `None` if it has none.
pub open spec fn entry_defect(max_inclusive: u64, ranges: Seq<MemoryRange>, i: int) -> Option<
    LayoutError,
> {
    let cur = ranges[i];
    if cur.start > cur.end_inclusive {
        Some(LayoutError::InvertedRange { index: i as usize })
    } else if cur.end_inclusive > max_inclusive {
        Some(LayoutError::OutOfBounds { index: i as usize })
    } else if i > 0 && cur.start < ranges[i - 1].start {
        Some(LayoutError::Unsorted { index: i as usize })
    } else if i > 0 && cur.start <= ranges[i - 1].end_inclusive {
        Some(LayoutError::Overlap { index: i as usize })
    } else {
        None
    }
}

/// Whether some range of `ranges` covers `addr`.
pub open spec fn mapped(ranges: Seq<MemoryRange>, addr: u64) -> bool {
    exists|i: int| 0 <= i < ranges.len() && (#[trigger] ranges[i]).spec_covers(addr)
}

/// In a sequence whose first `n` entries have no defect, entry `i` ends
/// before entry `j` starts, for all `i < j < n`.
proof fn lemma_prefix_ordered(max_inclusive: u64, ranges: Seq<MemoryRange>, n: int, i: int, j: int)
    requires
        0 <= i < j < n <= ranges.len(),
        forall|k: int| 0 <= k < n ==> entry_defect(max_inclusive, ranges, k) is None,
    ensures
        ranges[i].start <= ranges[i].end_inclusive < ranges[j].start <= ranges[j].end_inclusive,
    decreases j - i,
{
    assert(entry_defect(max_inclusive, ranges, j) is None);
    assert(entry_defect(max_inclusive, ranges, j - 1) is None);
    assert(entry_defect(max_inclusive, ranges, i) is None);
    if i < j - 1 {
        lemma_prefix_ordered(max_inclusive, ranges, n, i, j - 1);
    }
}

/// A sequence is a valid layout exactly when none of its entries has a
/// defect.
pub proof fn lemma_valid_iff_no_defect(max_inclusive: u64, ranges: Seq<MemoryRange>)
    ensures
        valid_layout(max_inclusive, ranges) <==> forall|i: int|
            0 <= i < ranges.len() ==> entry_defect(max_inclusive, ranges, i) is None,
{
    let no_defect = forall|i: int|
        0 <= i < ranges.len() ==> entry_defect(max_inclusive, ranges, i) is None;
    if no_defect {
        assert forall|i: int| 0 <= i < ranges.len() implies (#[trigger] ranges[i]).well_formed()
            && ranges[i].end_inclusive <= max_inclusive by {
            assert(entry_defect(max_inclusive, ranges, i) is None);
        }
        assert forall|i: int, j: int| 0 <= i < j < ranges.len() implies (#[trigger] ranges[i]).start
            < (#[trigger] ranges[j]).start && ranges[i].disjoint_from(ranges[j]) by {
            lemma_prefix_ordered(max_inclusive, ranges, ranges.len() as int, i, j);
        }
    }
    if valid_layout(max_inclusive, ranges) {
        assert forall|i: int| 0 <= i < ranges.len() implies entry_defect(
            max_inclusive,
            ranges,
            i,
        ) is None by {
            assert(ranges[i].well_formed());
            assert(ranges[i].end_inclusive <= max_inclusive);
            if i > 0 {
                assert(ranges[i - 1].well_formed());
                assert(ranges[i - 1].start < ranges[i].start);
                assert(ranges[i - 1].disjoint_from(ranges[i]));
            }
        }
    }
}

/// In a valid layout at most one range covers an address.
pub proof fn lemma_cover_unique(
    max_inclusive: u64,
    ranges: Seq<MemoryRange>,
    addr: u64,
    i: int,
    j: int,
)
    requires
        valid_layout(max_inclusive, ranges),
        0 <= i < ranges.len(),
        0 <= j < ranges.len(),
        ranges[i].spec_covers(addr),
        ranges[j].spec_covers(addr),
    ensures
        i == j,
{
    if i < j {
        assert(ranges[i].disjoint_from(ranges[j]));
    } else if j < i {
        assert(ranges[j].disjoint_from(ranges[i]));
    }
}

/// An ordered table of `N` address ranges under a highest address. Every
/// table is a valid layout: see [`valid_layout`].
#[derive(Debug)]
pub struct VirtualMemoryLayoutTable<const N: usize> {
    max_inclusive: u64,
    ranges: [MemoryRange; N],
}

impl<const N: usize> View for VirtualMemoryLayoutTable<N> {
    type V = Seq<MemoryRange>;

    /// The ranges, in table order.
    closed spec fn view(&self) -> Seq<MemoryRange> {
        self.ranges@
    }
}

impl<const N: usize> VirtualMemoryLayoutTable<N> {
    #[verifier::type_invariant]
    spec fn inv(&self) -> bool {
        valid_layout(self.max_inclusive, self.ranges@)
    }

    /// The highest address of the address space that the table describes.
    pub closed spec fn spec_max_inclusive(&self) -> u64 {
        self.max_inclusive
    }

    /// Builds the table from `ranges`, in the order given, if they form a
    /// valid layout under `max_inclusive`. If they do not, the error names
    /// the first entry with a defect, and the defect.
    pub fn new(max_inclusive: u64, ranges: [MemoryRange; N]) -> (result: Result<Self, LayoutError>)
        ensures
            result is Ok <==> valid_layout(max_inclusive, ranges@),
            result matches Ok(table) ==> table@ == ranges@ && table.spec_max_inclusive()
                == max_inclusive,
            result matches Err(e) ==> exists|i: int|
                0 <= i < N && #[trigger] entry_defect(max_inclusive, ranges@, i) == Some(e)
                    && forall|j: int|
                    0 <= j < i ==> entry_defect(max_inclusive, ranges@, j) is None,
    {
        proof {
            lemma_valid_iff_no_defect(max_inclusive, ranges@);
        }
        let mut i: usize = 0;
        while i < N
            invariant
                i <= N,
                ranges@.len() == N,
                forall|j: int| 0 <= j < i ==> entry_defect(max_inclusive, ranges@, j) is None,
            decreases N - i,
        {
            let cur = ranges[i];
            if cur.start > cur.end_inclusive {
                assert(entry_defect(max_inclusive, ranges@, i as int) == Some(
                    LayoutError::InvertedRange { index: i },
                ));
                return Err(LayoutError::InvertedRange { index: i });
            }
            if cur.end_inclusive > max_inclusive {
                assert(entry_defect(max_inclusive, ranges@, i as int) == Some(
                    LayoutError::OutOfBounds { index: i },
                ));
                return Err(LayoutError::OutOfBounds { index: i });
            }
            if i > 0 {
                let prev = ranges[i - 1];
                if cur.start < prev.start {
                    assert(entry_defect(max_inclusive, ranges@, i as int) == Some(
                        LayoutError::Unsorted { index: i },
                    ));
                    return Err(LayoutError::Unsorted { index: i });
                }
                if cur.start <= prev.end_inclusive {
                    assert(entry_defect(max_inclusive, ranges@, i as int) == Some(
                        LayoutError::Overlap { index: i },
                    ));
                    return Err(LayoutError::Overlap { index: i });
                }
            }
            assert(entry_defect(max_inclusive, ranges@, i as int) is None);
            i += 1;
        }
        Ok(VirtualMemoryLayoutTable { max_inclusive, ranges })
    }

    /// The ranges of the table, in order.
    pub fn ranges(&self) -> (ranges: &[MemoryRange; N])
        ensures
            ranges@ == self@,
            valid_layout(self.spec_max_inclusive(), self@),
    {
        proof {
            use_type_invariant(self);
        }
        &self.ranges
    }

    /// The highest address of the address space.
    pub fn max_inclusive(&self) -> (max: u64)
        ensures
            max == self.spec_max_inclusive(),
    {
        self.max_inclusive
    }

    /// The size of the address space in bytes: the highest address plus one.
    /// The result is wide enough to hold it even where the highest address
    /// is the largest that a `u64` can hold.
    pub fn address_space_size(&self) -> (size: u128)
        ensures
            size == self.spec_max_inclusive() + 1,
            forall|i: int| 0 <= i < self@.len() ==> (#[trigger] self@[i]).end_inclusive < size,
    {
        proof {
            use_type_invariant(self);
        }
        self.max_inclusive as u128 + 1
    }

    /// The range that covers `addr`, or `None` if the table maps no such
    /// address.
    pub fn lookup(&self, addr: u64) -> (found: Option<MemoryRange>)
        ensures
            found is Some <==> mapped(self@, addr),
            forall|i: int|
                0 <= i < self@.len() && (#[trigger] self@[i]).spec_covers(addr) ==> found == Some(
                    self@[i],
                ),
    {
        proof {
            use_type_invariant(self);
        }
        let mut i: usize = 0;
        while i < N
            invariant
                i <= N,
                self.ranges@.len() == N,
                forall|j: int| 0 <= j < i ==> !(#[trigger] self.ranges@[j]).spec_covers(addr),
                valid_layout(self.max_inclusive, self.ranges@),
            decreases N - i,
        {
            let cur = self.ranges[i];
            if cur.covers(addr) {
                assert forall|k: int|
                    0 <= k < self@.len() && (#[trigger] self@[k]).spec_covers(addr) implies Some(
                    cur,
                ) == Some(self@[k]) by {
                    lemma_cover_unique(self.max_inclusive, self.ranges@, addr, i as int, k);
                }
                return Some(cur);
            }
            i += 1;
        }
        None
    }
}

} // verus!
