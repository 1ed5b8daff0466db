//! Half-open block ranges and the containment test between them.
use vstd::prelude::*;

verus! {

/// What it means for the half-open range `[a_start, a_end)` to lie within
/// `[b_start, b_end)`: neither range is empty or inverted, and the first
/// starts no earlier and ends no later than the second.
pub open spec fn range_within(a_start: int, a_end: int, b_start: int, b_end: int) -> bool {
    &&& a_start < a_end
    &&& b_start < b_end
    &&& b_start <= a_start
    &&& a_end <= b_end
}

/// The set of blocks of the half-open range `[start, end)`.
pub open spec fn range_blocks(start: int, end: int) -> Set<int> {
    Set::new(|b: int| start <= b < end)
}

/// Whether the half-open ranges `[a_start, a_end)` and `[b_start, b_end)`
/// share no block.
pub open spec fn ranges_disjoint(a_start: int, a_end: int, b_start: int, b_end: int) -> bool {
    a_end <= b_start || b_end <= a_start
}

/// Checks whether a range is contained within another range.
pub trait Within<T> {
    /// The meaning of `within` in contracts.
    spec fn within_spec(&self, right: std::ops::Range<T>) -> bool;

    /// True if `self` is contained within `right`, otherwise false.
    fn within(&self, right: std::ops::Range<T>) -> (r: bool)
        ensures
            r == self.within_spec(right),
    ;
}

impl Within<u64> for std::ops::Range<u64> {
    open spec fn within_spec(&self, right: std::ops::Range<u64>) -> bool {
        range_within(self.start as int, self.end as int, right.start as int, right.end as int)
    }

    fn within(&self, right: std::ops::Range<u64>) -> (r: bool) {
        self.start < self.end && right.start < right.end && self.start >= right.start
            && self.end <= right.end
    }
}

/// A range that lies within another holds only blocks of that other range.
pub proof fn lemma_within_implies_subset(a: std::ops::Range<u64>, b: std::ops::Range<u64>)
    requires
        a.within_spec(b),
    ensures
        range_blocks(a.start as int, a.end as int).subset_of(
            range_blocks(b.start as int, b.end as int),
        ),
{
}

/// Containment is transitive.
pub proof fn lemma_within_transitive(
    a: std::ops::Range<u64>,
    b: std::ops::Range<u64>,
    c: std::ops::Range<u64>,
)
    requires
        a.within_spec(b),
        b.within_spec(c),
    ensures
        a.within_spec(c),
{
}

} // verus!
