//! The descriptor of one rebuild: the geometry of the copy and the map of the
//! segments that need none.
use vstd::prelude::*;

use crate::range::{range_within, Within};
use crate::rebuild_error::RebuildError;
use crate::rebuild_map::{map_view, RebuildMap, RebuildMapView};

verus! {

/// What the engine reads of an opened block device.
#[derive(Clone, Copy, Debug, PartialEq, Eq, Structural)]
pub struct DeviceInfo {
    /// Size of a block in bytes.
    pub block_size: u64,
    /// Number of blocks of the device.
    pub num_blocks: u64,
}

/// Number of segments of `segment_size_blks` blocks needed to cover `blocks`
/// blocks; the last one may be short.
pub open spec fn segments_in(blocks: int, segment_size_blks: int) -> int
    recommends
        segment_size_blks > 0,
{
    if blocks % segment_size_blks == 0 {
        blocks / segment_size_blks
    } else {
        blocks / segment_size_blks + 1
    }
}

/// Computes the number of segments needed to cover `blocks` blocks.
pub fn segments_for(blocks: u64, segment_size_blks: u64) -> (r: u64)
    requires
        segment_size_blks > 0,
    ensures
        r == segments_in(blocks as int, segment_size_blks as int),
{
    let full: u64 = blocks / segment_size_blks;
    if blocks % segment_size_blks == 0 {
        full
    } else {
        assert(full < blocks) by (nonlinear_arith)
            requires
                full == blocks / segment_size_blks,
                blocks % segment_size_blks != 0,
                segment_size_blks > 0,
        ;
        full + 1
    }
}

/// Whether a rebuild of the blocks `[start, end)` in segments of
/// `segment_size_bytes` bytes fits the two devices and the map.
///
/// The devices have one block size, which divides the segment size; the range
/// is non-empty, starts on a segment boundary and lies within both devices; a
/// map, if there is one, has the segment size of the rebuild and one flag for
/// each segment of the range.
pub open spec fn geometry_ok(
    src: DeviceInfo,
    dst: DeviceInfo,
    start: u64,
    end: u64,
    segment_size_bytes: u64,
    map: Option<RebuildMapView>,
) -> bool {
    &&& src.block_size == dst.block_size
    &&& src.block_size > 0
    &&& segment_size_bytes > 0
    &&& segment_size_bytes % src.block_size == 0
    &&& range_within(start as int, end as int, 0, src.num_blocks as int)
    &&& range_within(start as int, end as int, 0, dst.num_blocks as int)
    &&& start as int % (segment_size_bytes as int / src.block_size as int) == 0
    &&& match map {
        Some(m) => {
            &&& m.segment_size_blks == segment_size_bytes / src.block_size
            &&& m.clean.len() == segments_in(
                end - start,
                (segment_size_bytes / src.block_size) as int,
            )
        },
        None => true,
    }
}

/// What a descriptor holds.
pub struct RebuildDescriptorView {
    /// The block size of the source and the destination.
    pub block_size: u64,
    /// First block of the rebuild.
    pub start: u64,
    /// The block after the last block of the rebuild.
    pub end: u64,
    /// Segment size in blocks.
    pub segment_size_blks: u64,
    /// URI of the healthy child to rebuild from.
    pub src_uri: Seq<char>,
    /// URI of the out of sync child to rebuild.
    pub dst_uri: Seq<char>,
    /// Start time of the rebuild, in seconds since the epoch.
    pub start_time: i64,
    /// The rebuild map, if the rebuild is a partial one.
    pub rebuild_map: Option<RebuildMapView>,
}

impl RebuildDescriptorView {
    /// The invariant of a descriptor.
    pub open spec fn wf(self) -> bool {
        &&& self.block_size > 0
        &&& self.segment_size_blks > 0
        &&& self.start < self.end
        &&& self.start % self.segment_size_blks == 0
        &&& match self.rebuild_map {
            Some(m) => {
                &&& m.segment_size_blks == self.segment_size_blks
                &&& m.clean.len() == segments_in(
                    self.end - self.start,
                    self.segment_size_blks as int,
                )
            },
            None => true,
        }
    }

    /// Number of blocks of the rebuild.
    pub open spec fn blocks_total(self) -> int {
        self.end - self.start
    }

    /// Size of the segment that starts at block `blk`: the segment size, or
    /// what is left of the range when that is less. No segment starts at or
    /// after the end of the range.
    pub open spec fn segment_size_at(self, blk: u64) -> u64 {
        if blk >= self.end {
            0
        } else if self.end - blk < self.segment_size_blks {
            (self.end - blk) as u64
        } else {
            self.segment_size_blks
        }
    }

    /// Whether block `blk` needs no transfer. Without a map every block needs
    /// one. The map counts its segments from the start of the range.
    pub open spec fn is_blk_sync(self, blk: u64) -> bool {
        match self.rebuild_map {
            Some(m) => blk < self.start || m.is_blk_clean((blk - self.start) as u64),
            None => false,
        }
    }

    /// The descriptor after the segment of block `blk` has been marked as
    /// transferred.
    pub open spec fn blk_synced(self, blk: u64) -> RebuildDescriptorView {
        match self.rebuild_map {
            Some(m) => if blk < self.start {
                self
            } else {
                RebuildDescriptorView {
                    rebuild_map: Some(m.blk_clean((blk - self.start) as u64)),
                    ..self
                }
            },
            None => self,
        }
    }
}

/// Contains what the tasks need to copy data from source to destination: the
/// geometry of the rebuild and its map.
pub struct RebuildDescriptor {
    block_size: u64,
    range: std::ops::Range<u64>,
    segment_size_blks: u64,
    src_uri: String,
    dst_uri: String,
    start_time: i64,
    rebuild_map: Option<RebuildMap>,
}

impl View for RebuildDescriptor {
    type V = RebuildDescriptorView;

    closed spec fn view(&self) -> RebuildDescriptorView {
        RebuildDescriptorView {
            block_size: self.block_size,
            start: self.range.start,
            end: self.range.end,
            segment_size_blks: self.segment_size_blks,
            src_uri: self.src_uri@,
            dst_uri: self.dst_uri@,
            start_time: self.start_time,
            rebuild_map: match self.rebuild_map {
                Some(m) => Some(m@),
                None => None,
            },
        }
    }
}

impl RebuildDescriptor {
    /// Builds the descriptor of a rebuild of `range` from the device `src` to
    /// the device `dst`, or returns `BadRange` when the geometry does not fit.
    pub fn new(
        src_uri: String,
        dst_uri: String,
        src: DeviceInfo,
        dst: DeviceInfo,
        range: std::ops::Range<u64>,
        segment_size_bytes: u64,
        rebuild_map: Option<RebuildMap>,
        start_time: i64,
    ) -> (r: Result<Self, RebuildError>)
        ensures
            match r {
                Ok(d) => {
                    &&& geometry_ok(
                        src,
                        dst,
                        range.start,
                        range.end,
                        segment_size_bytes,
                        map_view(rebuild_map),
                    )
                    &&& d@.wf()
                    &&& d@ == (RebuildDescriptorView {
                        block_size: src.block_size,
                        start: range.start,
                        end: range.end,
                        segment_size_blks: (segment_size_bytes / src.block_size) as u64,
                        src_uri: src_uri@,
                        dst_uri: dst_uri@,
                        start_time,
                        rebuild_map: map_view(rebuild_map),
                    })
                },
                Err(e) => {
                    &&& e == RebuildError::BadRange
                    &&& !geometry_ok(
                        src,
                        dst,
                        range.start,
                        range.end,
                        segment_size_bytes,
                        map_view(rebuild_map),
                    )
                },
            },
    {
        if src.block_size != dst.block_size || src.block_size == 0 {
            return Err(RebuildError::BadRange);
        }
        let block_size: u64 = src.block_size;
        if segment_size_bytes == 0 || segment_size_bytes % block_size != 0 {
            return Err(RebuildError::BadRange);
        }
        let segment_size_blks: u64 = segment_size_bytes / block_size;
        assert(segment_size_blks > 0) by (nonlinear_arith)
            requires
                segment_size_blks == segment_size_bytes / block_size,
                segment_size_bytes % block_size == 0,
                segment_size_bytes > 0,
                block_size > 0,
        ;
        if !range.within(0..src.num_blocks) || !range.within(0..dst.num_blocks) {
            return Err(RebuildError::BadRange);
        }
        if range.start % segment_size_blks != 0 {
            return Err(RebuildError::BadRange);
        }
        match &rebuild_map {
            Some(m) => {
                if m.segment_size_blks() != segment_size_blks || m.num_segments() as u64
                    != segments_for(range.end - range.start, segment_size_blks) {
                    return Err(RebuildError::BadRange);
                }
            },
            None => {},
        }
        Ok(
            RebuildDescriptor {
                block_size,
                range,
                segment_size_blks,
                src_uri,
                dst_uri,
                start_time,
                rebuild_map,
            },
        )
    }

    /// The block size of the source and the destination.
    pub fn block_size(&self) -> (r: u64)
        ensures
            r == self@.block_size,
    {
        self.block_size
    }

    /// The range of the entire rebuild.
    pub fn range(&self) -> (r: std::ops::Range<u64>)
        ensures
            r.start == self@.start,
            r.end == self@.end,
    {
        self.range.start..self.range.end
    }

    /// Segment size in blocks.
    pub fn segment_size_blks(&self) -> (r: u64)
        ensures
            r == self@.segment_size_blks,
    {
        self.segment_size_blks
    }

    /// URI of the healthy child to rebuild from.
    pub fn src_uri(&self) -> (r: &String)
        ensures
            r@ == self@.src_uri,
    {
        &self.src_uri
    }

    /// URI of the out of sync child to rebuild.
    pub fn dst_uri(&self) -> (r: &String)
        ensures
            r@ == self@.dst_uri,
    {
        &self.dst_uri
    }

    /// Start time of the rebuild, in seconds since the epoch.
    pub fn start_time(&self) -> (r: i64)
        ensures
            r == self@.start_time,
    {
        self.start_time
    }

    /// Whether the rebuild has a map.
    pub fn has_map(&self) -> (r: bool)
        ensures
            r == self@.rebuild_map.is_some(),
    {
        self.rebuild_map.is_some()
    }

    /// Return the size of the segment to be copied.
    pub fn get_segment_size_blks(&self, blk: u64) -> (r: u64)
        ensures
            r == self@.segment_size_at(blk),
    {
        if blk >= self.range.end {
            return 0;
        }
        // Adjust the segments size for the last segment
        if self.range.end - blk < self.segment_size_blks {
            return self.range.end - blk;
        }
        self.segment_size_blks
    }

    /// Checks if the block needs no transfer.
    /// If no rebuild map is present, all blocks are considered unsynced.
    pub fn is_blk_sync(&self, blk: u64) -> (r: bool)
        ensures
            r == self@.is_blk_sync(blk),
    {
        match &self.rebuild_map {
            Some(m) => blk < self.range.start || m.is_blk_clean(blk - self.range.start),
            None => false,
        }
    }

    /// Marks the rebuild segment starting from the given logical block as
    /// already transferred.
    pub fn blk_synced(&mut self, blk: u64)
        ensures
            final(self)@ == old(self)@.blk_synced(blk),
    {
        if blk < self.range.start {
            return ;
        }
        let rel: u64 = blk - self.range.start;
        match &mut self.rebuild_map {
            Some(map) => {
                map.blk_clean(rel);
            },
            None => {},
        }
    }
}

/// Marking a segment as transferred keeps the invariant of the descriptor and
/// changes nothing but the map.
pub proof fn lemma_blk_synced_keeps_wf(d: RebuildDescriptorView, blk: u64)
    requires
        d.wf(),
    ensures
        d.blk_synced(blk).wf(),
        d.blk_synced(blk).start == d.start,
        d.blk_synced(blk).end == d.end,
        d.blk_synced(blk).segment_size_blks == d.segment_size_blks,
        d.blk_synced(blk).block_size == d.block_size,
        d.blk_synced(blk).start_time == d.start_time,
        d.blk_synced(blk).src_uri == d.src_uri,
        d.blk_synced(blk).dst_uri == d.dst_uri,
        d.blk_synced(blk).rebuild_map.is_some() == d.rebuild_map.is_some(),
        forall|b: u64| d.is_blk_sync(b) ==> #[trigger] d.blk_synced(blk).is_blk_sync(b),
        d.rebuild_map.is_some() ==> d.blk_synced(blk).is_blk_sync(blk),
{
}

/// A segment of the range is never empty and never longer than the segment
/// size, and it ends within the range.
pub proof fn lemma_segment_size_bounds(d: RebuildDescriptorView, blk: u64)
    requires
        d.wf(),
        d.start <= blk < d.end,
    ensures
        0 < d.segment_size_at(blk) <= d.segment_size_blks,
        blk + d.segment_size_at(blk) <= d.end,
        d.segment_size_at(blk) < d.segment_size_blks ==> blk + d.segment_size_at(blk) == d.end,
{
}

} // verus!
