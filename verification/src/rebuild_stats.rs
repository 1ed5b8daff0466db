//! The statistics of a rebuild: progress, throughput and the record that is
//! kept of a finished job.
use vstd::prelude::*;

use crate::rebuild_error::RebuildError;
use crate::rebuild_state::RebuildState;

verus! {

/// Progress in percent of `done` blocks out of `total`, rounded down; 100
/// when nothing is left to do.
pub open spec fn progress_of(done: int, total: int) -> int {
    if total <= 0 || done >= total {
        100
    } else if done <= 0 {
        0
    } else {
        done * 100 / total
    }
}

/// Seconds from `start` to `now`; 0 when the clock has not advanced.
pub open spec fn elapsed_of(start: int, now: int) -> int {
    if now > start {
        now - start
    } else {
        0
    }
}

/// Throughput in bytes per second of `blocks` blocks of `block_size` bytes in
/// `secs` seconds, rounded down and capped at the largest `u64`; 0 when no
/// time has passed.
pub open spec fn throughput_of(blocks: int, block_size: int, secs: int) -> int {
    if secs <= 0 {
        0
    } else if blocks * block_size / secs > u64::MAX {
        u64::MAX as int
    } else {
        blocks * block_size / secs
    }
}

/// Computes the progress in percent.
pub fn progress_percent(done: u64, total: u64) -> (r: u64)
    ensures
        r == progress_of(done as int, total as int),
        r <= 100,
        done < total ==> r < 100,
{
    if total == 0 || done >= total {
        100
    } else {
        let scaled: u128 = (done as u128) * 100;
        let p: u128 = scaled / (total as u128);
        assert(p < 100) by (nonlinear_arith)
            requires
                p == (done * 100) / (total as int),
                done < total,
        ;
        p as u64
    }
}

/// Computes the seconds from `start` to `now`.
pub fn elapsed_secs(start: i64, now: i64) -> (r: u64)
    ensures
        r == elapsed_of(start as int, now as int),
{
    if now > start {
        ((now as i128) - (start as i128)) as u64
    } else {
        0
    }
}

/// Computes the throughput in bytes per second.
pub fn throughput(blocks: u128, block_size: u64, secs: u64) -> (r: u64)
    ensures
        r == throughput_of(blocks as int, block_size as int, secs as int),
{
    if secs == 0 {
        return 0;
    }
    match blocks.checked_mul(block_size as u128) {
        Some(bytes) => {
            let t: u128 = bytes / (secs as u128);
            if t > u64::MAX as u128 {
                u64::MAX
            } else {
                t as u64
            }
        },
        None => {
            assert(blocks * block_size / (secs as int) > u64::MAX) by (nonlinear_arith)
                requires
                    blocks * block_size >= 0x1_0000_0000_0000_0000_0000_0000_0000_0000,
                    0 < secs <= 0xffff_ffff_ffff_ffff,
            ;
            u64::MAX
        },
    }
}

/// The blocks that one task result added to the transfer, and when.
#[derive(Clone, Copy, Debug, PartialEq, Eq)]
pub struct Sample {
    /// Time of the result, in seconds since the epoch.
    pub at: i64,
    /// Number of blocks transferred.
    pub blocks: u64,
}

/// Whether the time `at` lies in the window of `window_secs` seconds that
/// ends at `now`.
pub open spec fn in_window(at: i64, now: i64, window_secs: u64) -> bool {
    now - window_secs < at <= now
}

/// The blocks of the samples that lie in the window that ends at `now`.
pub open spec fn blocks_in_window(samples: Seq<Sample>, now: i64, window_secs: u64) -> nat
    decreases samples.len(),
{
    if samples.len() == 0 {
        0
    } else {
        blocks_in_window(samples.drop_last(), now, window_secs) + if in_window(
            samples.last().at,
            now,
            window_secs,
        ) {
            samples.last().blocks as nat
        } else {
            0
        }
    }
}

/// The samples without the leading ones that lie outside the window that
/// ends at `now`.
pub open spec fn drop_expired(samples: Seq<Sample>, now: i64, window_secs: u64) -> Seq<Sample>
    decreases samples.len(),
{
    if samples.len() > 0 && !in_window(samples[0].at, now, window_secs) {
        drop_expired(samples.subrange(1, samples.len() as int), now, window_secs)
    } else {
        samples
    }
}

/// What a throughput window holds.
pub struct ThroughputWindowView {
    /// Length of the window in seconds.
    pub window_secs: u64,
    /// The samples, oldest first.
    pub samples: Seq<Sample>,
}

impl ThroughputWindowView {
    /// The window after a result of `blocks` blocks at the time `at`: the
    /// leading samples that have left the window are dropped, and the new one
    /// is added.
    pub open spec fn record(self, at: i64, blocks: u64) -> ThroughputWindowView {
        ThroughputWindowView {
            samples: drop_expired(self.samples, at, self.window_secs).push(Sample { at, blocks }),
            ..self
        }
    }

    /// Bytes per second over the window that ends at `now`.
    pub open spec fn throughput(self, now: i64, block_size: u64) -> int {
        throughput_of(
            blocks_in_window(self.samples, now, self.window_secs) as int,
            block_size as int,
            self.window_secs as int,
        )
    }
}

/// The blocks transferred in the recent past, for the windowed throughput.
pub struct ThroughputWindow {
    window_secs: u64,
    samples: Vec<Sample>,
}

impl View for ThroughputWindow {
    type V = ThroughputWindowView;

    closed spec fn view(&self) -> ThroughputWindowView {
        ThroughputWindowView { window_secs: self.window_secs, samples: self.samples@ }
    }
}

/// The blocks in a window are at most `u64::MAX` for each sample.
pub proof fn lemma_blocks_in_window_bound(samples: Seq<Sample>, now: i64, window_secs: u64)
    ensures
        blocks_in_window(samples, now, window_secs) <= samples.len() * u64::MAX,
    decreases samples.len(),
{
    if samples.len() > 0 {
        lemma_blocks_in_window_bound(samples.drop_last(), now, window_secs);
        assert((samples.len() - 1) * u64::MAX + u64::MAX == samples.len() * u64::MAX)
            by (nonlinear_arith);
    }
}

impl ThroughputWindow {
    /// An empty window of `window_secs` seconds.
    pub fn new(window_secs: u64) -> (r: Self)
        ensures
            r@.window_secs == window_secs,
            r@.samples == Seq::<Sample>::empty(),
    {
        ThroughputWindow { window_secs, samples: Vec::new() }
    }

    /// Tells whether `at` lies in the window that ends at `now`.
    fn within(at: i64, now: i64, window_secs: u64) -> (r: bool)
        ensures
            r == in_window(at, now, window_secs),
    {
        at <= now && (now as i128) - (at as i128) < (window_secs as i128)
    }

    /// Takes in a result of `blocks` blocks at the time `at`.
    pub fn record(&mut self, at: i64, blocks: u64)
        ensures
            final(self)@ == old(self)@.record(at, blocks),
    {
        while self.samples.len() > 0 && !Self::within(self.samples[0].at, at, self.window_secs)
            invariant
                self.window_secs == old(self).window_secs,
                drop_expired(self.samples@, at, self.window_secs) == drop_expired(
                    old(self).samples@,
                    at,
                    self.window_secs,
                ),
            decreases self.samples@.len(),
        {
            assert(self.samples@.remove(0) =~= self.samples@.subrange(
                1,
                self.samples@.len() as int,
            ));
            self.samples.remove(0);
        }
        self.samples.push(Sample { at, blocks });
    }

    /// Number of blocks transferred in the window that ends at `now`.
    pub fn blocks_within(&self, now: i64) -> (r: u128)
        ensures
            r == blocks_in_window(self@.samples, now, self@.window_secs),
    {
        let mut acc: u128 = 0;
        let mut i: usize = 0;
        while i < self.samples.len()
            invariant
                i <= self.samples@.len(),
                acc == blocks_in_window(
                    self.samples@.subrange(0, i as int),
                    now,
                    self.window_secs,
                ),
            decreases self.samples@.len() - i,
        {
            proof {
                let next = self.samples@.subrange(0, i + 1);
                assert(next.drop_last() =~= self.samples@.subrange(0, i as int));
                lemma_blocks_in_window_bound(next, now, self.window_secs);
                assert(next.len() * u64::MAX <= usize::MAX * u64::MAX) by (nonlinear_arith)
                    requires
                        next.len() <= usize::MAX,
                ;
                assert(usize::MAX * u64::MAX <= u128::MAX) by (nonlinear_arith)
                    requires
                        usize::MAX <= u64::MAX,
                ;
            }
            if Self::within(self.samples[i].at, now, self.window_secs) {
                acc = acc + self.samples[i].blocks as u128;
            }
            i += 1;
        }
        assert(self.samples@.subrange(0, i as int) =~= self.samples@);
        acc
    }

    /// Bytes per second over the window that ends at `now`, for blocks of
    /// `block_size` bytes.
    pub fn throughput(&self, now: i64, block_size: u64) -> (r: u64)
        ensures
            r == self@.throughput(now, block_size),
    {
        throughput(self.blocks_within(now), block_size, self.window_secs)
    }
}

/// A snapshot of the statistics of a rebuild job.
#[derive(Clone, Copy, Debug, PartialEq, Eq)]
pub struct RebuildStats {
    /// First block of the rebuild.
    pub start: u64,
    /// The block after the last block of the rebuild.
    pub end: u64,
    /// State of the job.
    pub state: RebuildState,
    /// Total number of blocks to recover.
    pub blocks_total: u64,
    /// Number of blocks copied to the destination.
    pub blocks_transferred: u64,
    /// Number of blocks that were found clean in the map and skipped.
    pub blocks_skipped: u64,
    /// Number of blocks neither copied nor skipped yet.
    pub blocks_remaining: u64,
    /// Progress in percent.
    pub progress: u64,
    /// Number of segments copied.
    pub segments_done: u64,
    /// Number of segments skipped.
    pub segments_skipped: u64,
    /// Size of a block in bytes.
    pub block_size: u64,
    /// Number of copy tasks of the job.
    pub tasks_total: u64,
    /// Number of copy tasks that hold a segment.
    pub tasks_active: u64,
    /// Start time of the job, in seconds since the epoch.
    pub start_time: i64,
    /// Time at which the job reached a terminal state.
    pub end_time: Option<i64>,
    /// Bytes per second since the start of the job.
    pub throughput_avg: u64,
    /// Bytes per second over the recent window.
    pub throughput_window: u64,
}

/// The record kept of a job that has ended.
#[derive(Debug)]
pub struct HistoryRecord {
    /// URI of the source child.
    pub src_uri: String,
    /// URI of the destination child.
    pub dst_uri: String,
    /// First block of the rebuild.
    pub start: u64,
    /// The block after the last block of the rebuild.
    pub end: u64,
    /// Start time of the job, in seconds since the epoch.
    pub start_time: i64,
    /// Time at which the job ended.
    pub end_time: i64,
    /// The terminal state the job ended in.
    pub final_state: RebuildState,
    /// The statistics of the job when it ended.
    pub final_stats: RebuildStats,
    /// The fatal error, if the job ended by one.
    pub error: Option<RebuildError>,
}

} // verus!
