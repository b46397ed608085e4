//! Inclusive ranges of ports, and overlap detection over lists of ranges.

use vstd::prelude::*;

verus! {

/// An inclusive range with integer bounds, `lower()..=upper()`.
pub trait Interval: Sized {
    spec fn lower(&self) -> int;

    spec fn upper(&self) -> int;

    /// Returns true when this range starts no later than `other` ends.
    fn starts_by_end_of(&self, other: &Self) -> (r: bool)
        ensures
            r == (self.lower() <= other.upper()),
    ;

    /// Returns true when the two ranges are the same value.
    fn same_as(&self, other: &Self) -> (r: bool)
        ensures
            r == (*self == *other),
    ;
}

/// Two ranges intersect.
pub open spec fn meets<T: Interval>(a: T, b: T) -> bool {
    a.lower() <= b.upper() && a.upper() >= b.lower()
}

/// Some range of `ranges`, other than the one at `skip`, intersects `range`.
pub open spec fn overlaps_any<T: Interval>(ranges: Seq<T>, range: T, skip: Option<usize>) -> bool {
    exists|i: int| 0 <= i < ranges.len() && skip != Some(i as usize) && meets(#[trigger] ranges[i], range)
}

/// Two distinct positions of `ranges` hold intersecting ranges.
pub open spec fn has_overlap<T: Interval>(ranges: Seq<T>) -> bool {
    exists|i: int, j: int|
        0 <= i < ranges.len() && 0 <= j < ranges.len() && i != j && meets(
            #[trigger] ranges[i],
            #[trigger] ranges[j],
        )
}

/// An inclusive range of ports, from `start` to `end`.
#[derive(Clone, Copy, Debug, PartialEq, Eq, Structural, Hash)]
pub struct PortRange {
    pub start: u16,
    pub end: u16,
}

impl PortRange {
    pub fn new(start: u16, end: u16) -> (r: PortRange)
        ensures
            r == (PortRange { start, end }),
    {
        PortRange { start, end }
    }

    pub open spec fn spec_contains(self, port: u16) -> bool {
        self.start <= port <= self.end
    }

    /// Returns true when the port lies in the range.
    pub fn contains(&self, port: u16) -> (r: bool)
        ensures
            r == self.spec_contains(port),
    {
        self.start <= port && port <= self.end
    }
}

impl Interval for PortRange {
    open spec fn lower(&self) -> int {
        self.start as int
    }

    open spec fn upper(&self) -> int {
        self.end as int
    }

    fn starts_by_end_of(&self, other: &PortRange) -> (r: bool) {
        self.start <= other.end
    }

    fn same_as(&self, other: &PortRange) -> (r: bool) {
        self.start == other.start && self.end == other.end
    }
}

/// Returns whether `range` intersects a range of `ranges`, leaving out the one
/// at `self_index` when it is given.
pub fn range_overlaps<T: Interval>(ranges: &[T], range: &T, self_index: Option<usize>) -> (r: bool)
    ensures
        r == overlaps_any(ranges@, *range, self_index),
{
    let mut i: usize = 0;
    while i < ranges.len()
        invariant
            i <= ranges@.len(),
            forall|k: int|
                0 <= k < i && self_index != Some(k as usize) ==> !meets(#[trigger] ranges@[k], *range),
        decreases ranges@.len() - i,
    {
        if self_index != Some(i) {
            let r = &ranges[i];
            if r.starts_by_end_of(range) && range.starts_by_end_of(r) {
                return true;
            }
        }
        i = i + 1;
    }
    false
}

/// Returns whether two ranges of the list intersect.
pub fn has_overlapping_ranges<T: Interval>(ranges: &[T]) -> (r: bool)
    ensures
        r == has_overlap(ranges@),
{
    let mut i: usize = 0;
    while i < ranges.len()
        invariant
            i <= ranges@.len(),
            forall|a: int, b: int|
                0 <= a < i && 0 <= b < ranges@.len() && a != b ==> !meets(
                    #[trigger] ranges@[a],
                    #[trigger] ranges@[b],
                ),
        decreases ranges@.len() - i,
    {
        if range_overlaps(ranges, &ranges[i], Some(i)) {
            return true;
        }
        proof {
            assert forall|b: int| 0 <= b < ranges@.len() && b != i implies !meets(
                #[trigger] ranges@[b],
                ranges@[i as int],
            ) by {}
            assert forall|b: int| 0 <= b < ranges@.len() && b != i implies !meets(
                ranges@[i as int],
                #[trigger] ranges@[b],
            ) by {
                assert(!meets(ranges@[b], ranges@[i as int]));
            }
        }
        i = i + 1;
    }
    false
}

} // verus!
