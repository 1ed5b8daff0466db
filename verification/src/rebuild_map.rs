//! The map of segments that are already in sync and need no copy.
use vstd::prelude::*;

verus! {

/// What a rebuild map holds: the size of a segment in blocks, and for each
/// segment whether it is clean.
pub struct RebuildMapView {
    /// Size of a segment in blocks.
    pub segment_size_blks: u64,
    /// One flag per segment: `true` when the segment is clean.
    pub clean: Seq<bool>,
}

impl RebuildMapView {
    /// The segment that holds block `blk`, if the map has one for it.
    pub open spec fn segment_of(self, blk: u64) -> Option<int> {
        if self.segment_size_blks > 0 && (blk / self.segment_size_blks) < self.clean.len() {
            Some((blk / self.segment_size_blks) as int)
        } else {
            None
        }
    }

    /// Whether block `blk` is clean: its segment is marked clean, or the map
    /// has no segment for it.
    pub open spec fn is_blk_clean(self, blk: u64) -> bool {
        match self.segment_of(blk) {
            Some(i) => self.clean[i],
            None => true,
        }
    }

    /// The map after the segment of block `blk` has been marked clean.
    pub open spec fn blk_clean(self, blk: u64) -> RebuildMapView {
        match self.segment_of(blk) {
            Some(i) => RebuildMapView { clean: self.clean.update(i, true), ..self },
            None => self,
        }
    }

    /// Whether every segment is clean.
    pub open spec fn all_clean(self) -> bool {
        forall|i: int| 0 <= i < self.clean.len() ==> self.clean[i]
    }
}

/// Map of the segments of a rebuild. A segment is either clean (no need to
/// transfer it) or dirty (it has to be transferred).
pub struct RebuildMap {
    segment_size_blks: u64,
    clean: Vec<bool>,
}

impl View for RebuildMap {
    type V = RebuildMapView;

    closed spec fn view(&self) -> RebuildMapView {
        RebuildMapView { segment_size_blks: self.segment_size_blks, clean: self.clean@ }
    }
}

impl RebuildMap {
    /// Creates a map of `num_segments` segments of `segment_size_blks` blocks
    /// each, all of them dirty.
    pub fn new(num_segments: usize, segment_size_blks: u64) -> (r: Self)
        ensures
            r@.segment_size_blks == segment_size_blks,
            r@.clean.len() == num_segments,
            forall|i: int| 0 <= i < num_segments ==> !r@.clean[i],
    {
        let mut clean: Vec<bool> = Vec::new();
        let mut i: usize = 0;
        while i < num_segments
            invariant
                i <= num_segments,
                clean@.len() == i,
                forall|j: int| 0 <= j < i ==> !clean@[j],
            decreases num_segments - i,
        {
            clean.push(false);
            i += 1;
        }
        RebuildMap { segment_size_blks, clean }
    }

    /// Number of segments of the map.
    pub fn num_segments(&self) -> (r: usize)
        ensures
            r == self@.clean.len(),
    {
        self.clean.len()
    }

    /// Size of a segment in blocks.
    pub fn segment_size_blks(&self) -> (r: u64)
        ensures
            r == self@.segment_size_blks,
    {
        self.segment_size_blks
    }

    /// Index of the segment that holds block `blk`, if the map has one.
    fn segment_index(&self, blk: u64) -> (r: Option<usize>)
        ensures
            match r {
                Some(i) => self@.segment_of(blk) == Some(i as int),
                None => self@.segment_of(blk).is_none(),
            },
    {
        if self.segment_size_blks == 0 {
            return None;
        }
        let seg: u64 = blk / self.segment_size_blks;
        if seg < self.clean.len() as u64 {
            Some(seg as usize)
        } else {
            None
        }
    }

    /// Checks whether the segment of logical block `blk` is clean. A block
    /// beyond the last segment counts as clean.
    pub fn is_blk_clean(&self, blk: u64) -> (r: bool)
        ensures
            r == self@.is_blk_clean(blk),
    {
        match self.segment_index(blk) {
            Some(i) => self.clean[i],
            None => true,
        }
    }

    /// Marks the segment of logical block `blk` as clean. A block beyond the
    /// last segment changes nothing.
    pub fn blk_clean(&mut self, blk: u64)
        ensures
            final(self)@ == old(self)@.blk_clean(blk),
    {
        match self.segment_index(blk) {
            Some(i) => {
                self.clean.set(i, true);
            },
            None => {},
        }
    }

    /// Whether every segment of the map is clean.
    pub fn is_all_clean(&self) -> (r: bool)
        ensures
            r == self@.all_clean(),
    {
        let mut i: usize = 0;
        while i < self.clean.len()
            invariant
                i <= self.clean@.len(),
                forall|j: int| 0 <= j < i ==> self.clean@[j],
            decreases self.clean@.len() - i,
        {
            if !self.clean[i] {
                assert(!self@.clean[i as int]);
                return false;
            }
            i += 1;
        }
        true
    }
}

/// What an optional map holds.
pub open spec fn map_view(map: Option<RebuildMap>) -> Option<RebuildMapView> {
    match map {
        Some(m) => Some(m@),
        None => None,
    }
}

/// A block that was marked clean is clean, and marking it leaves every clean
/// block clean.
pub proof fn lemma_blk_clean_marks(m: RebuildMapView, blk: u64, other: u64)
    ensures
        m.blk_clean(blk).is_blk_clean(blk),
        m.is_blk_clean(other) ==> m.blk_clean(blk).is_blk_clean(other),
        m.blk_clean(blk).segment_size_blks == m.segment_size_blks,
        m.blk_clean(blk).clean.len() == m.clean.len(),
{
}

/// Marking a block clean changes the state of the blocks of its own segment
/// only.
pub proof fn lemma_blk_clean_is_local(m: RebuildMapView, blk: u64, other: u64)
    requires
        m.segment_of(other) != m.segment_of(blk),
    ensures
        m.blk_clean(blk).is_blk_clean(other) == m.is_blk_clean(other),
{
}

/// Marking a block clean twice is the same as marking it once.
pub proof fn lemma_blk_clean_idempotent(m: RebuildMapView, blk: u64)
    ensures
        m.blk_clean(blk).blk_clean(blk) == m.blk_clean(blk),
{
    assert(m.blk_clean(blk).blk_clean(blk).clean =~= m.blk_clean(blk).clean);
}

} // verus!
