//! The model of the two devices under a rebuild, and the proof that a
//! completed job has made the destination equal to the source.
//!
//! The engine never touches a device: its caller reads and writes. What the
//! caller's reports mean is stated here. `ReadDone` says that the buffer of
//! the task holds the blocks of its segment as the source has them;
//! `WriteDone` says that the destination holds the buffer at the segment. The
//! nexus goes on serving the host: a host write reaches both children, and
//! the range lock keeps it off every range that a task holds locked.
use vstd::prelude::*;

use crate::backend_laws::{
    apply,
    lemma_apply_keeps_range,
    lemma_apply_wf,
    lemma_completed_all_synced,
    BackendEvent,
};
use crate::backend_model::{first_free, slot_ok, BackendView};
use crate::backend_proofs::{
    lemma_first_free_exists,
    lemma_segment_in_sync,
    lemma_settle_wf,
    lemma_started_wf,
};
use crate::rebuild_state::RebuildState;
use crate::rebuild_task::{task_step, TaskEvent, TaskState};

verus! {

/// The content of one block.
pub type Block = Seq<u8>;

/// The device `dev` after `data` was written to it from block `blk` on.
pub open spec fn written(dev: Seq<Block>, blk: int, data: Seq<Block>) -> Seq<Block> {
    Seq::new(
        dev.len(),
        |b: int|
            if blk <= b < blk + data.len() {
                data[b - blk]
            } else {
                dev[b]
            },
    )
}

/// Whether some task of the pool holds block `b` locked.
pub open spec fn locked(slots: Seq<TaskState>, b: int) -> bool {
    exists|i: int|
        0 <= i < slots.len() && match (#[trigger] slots[i]).locked_range() {
            Some((blk, len)) => blk <= b < blk + len,
            None => false,
        }
}

/// A rebuild job together with the devices it works on.
pub struct World {
    /// The scheduler of the job.
    pub backend: BackendView,
    /// The blocks of the source.
    pub src: Seq<Block>,
    /// The blocks of the destination.
    pub dst: Seq<Block>,
    /// The bounce buffer of each copy task.
    pub buffers: Seq<Seq<Block>>,
}

/// What can happen to a job and its devices.
pub enum WorldEvent {
    /// A command, a report of a task, or a round of the scheduling loop.
    Engine(BackendEvent),
    /// The host writes `data` to block `blk` of the nexus.
    HostWrite { blk: int, data: Block },
}

/// The job and its devices after one event.
///
/// A report `ReadDone` of a task that is reading fills the buffer of the task
/// from the source. A report `WriteDone` of a task that is writing puts the
/// buffer on the destination. A host write changes both devices, unless a
/// task holds the block locked: then it has to wait and nothing changes.
pub open spec fn world_step(w: World, e: WorldEvent) -> World {
    match e {
        WorldEvent::Engine(be) => {
            let backend = apply(w.backend, be);
            match be {
                BackendEvent::Task { slot, event, now } => if 0 <= slot < w.backend.slots.len() {
                    match (w.backend.slots[slot], event) {
                        (TaskState::Reading { blk, len }, TaskEvent::ReadDone) => World {
                            backend,
                            buffers: w.buffers.update(slot, w.src.subrange(blk as int, blk + len)),
                            ..w
                        },
                        (TaskState::Writing { blk, len }, TaskEvent::WriteDone) => World {
                            backend,
                            dst: written(w.dst, blk as int, w.buffers[slot]),
                            ..w
                        },
                        _ => World { backend, ..w },
                    }
                } else {
                    World { backend, ..w }
                },
                _ => World { backend, ..w },
            }
        },
        WorldEvent::HostWrite { blk, data } => if 0 <= blk < w.src.len() && !locked(
            w.backend.slots,
            blk,
        ) {
            World { src: w.src.update(blk, data), dst: w.dst.update(blk, data), ..w }
        } else {
            w
        },
    }
}

/// The job and its devices after a sequence of events.
pub open spec fn world_run(w: World, events: Seq<WorldEvent>) -> World
    decreases events.len(),
{
    if events.len() == 0 {
        w
    } else {
        world_step(world_run(w, events.drop_last()), events.last())
    }
}

/// What holds of a job and its devices at every moment.
///
/// The devices hold the range and each task has a buffer. A block that was
/// reported as copied or as clean is the same on both devices; so is a clean
/// block that is still ahead of the cursor. The buffer of a task that is
/// writing holds its segment as the source has it, and the segment of a task
/// that has written is the same on both devices.
pub open spec fn world_inv(w: World) -> bool {
    let v = w.backend;
    let d = v.descriptor;
    &&& v.wf()
    &&& w.src.len() == w.dst.len()
    &&& d.end <= w.src.len()
    &&& w.buffers.len() == v.slots.len()
    &&& forall|b: int| #[trigger] v.synced.contains(b) ==> w.dst[b] == w.src[b]
    &&& forall|b: int|
        v.next <= b < d.end && #[trigger] d.is_blk_sync(b as u64) ==> w.dst[b] == w.src[b]
    &&& forall|i: int|
        0 <= i < v.slots.len() ==> match #[trigger] v.slots[i] {
            TaskState::Writing { blk, len } => w.buffers[i] == w.src.subrange(
                blk as int,
                blk + len,
            ),
            TaskState::Unlocking { result } => result.transferred ==> w.dst.subrange(
                result.blk as int,
                result.blk + result.len,
            ) == w.src.subrange(result.blk as int, result.blk + result.len),
            _ => true,
        }
}

/// A job that has not started, on devices that hold the range and on which
/// every block that the map holds clean is the same.
pub open spec fn world_init(w: World) -> bool {
    let v = w.backend;
    let d = v.descriptor;
    &&& v.wf()
    &&& v.states.current == RebuildState::Init
    &&& v.quiesced()
    &&& v.synced == Set::<int>::empty()
    &&& w.src.len() == w.dst.len()
    &&& d.end <= w.src.len()
    &&& w.buffers.len() == v.slots.len()
    &&& forall|b: int|
        d.start <= b < d.end && #[trigger] d.is_blk_sync(b as u64) ==> w.dst[b] == w.src[b]
}

/// A job that has not started meets what holds at every moment.
pub proof fn lemma_world_init_inv(w: World)
    requires
        world_init(w),
    ensures
        world_inv(w),
{
    let v = w.backend;
    assert forall|i: int| 0 <= i < v.slots.len() implies match #[trigger] v.slots[i] {
        TaskState::Writing { blk, len } => w.buffers[i] == w.src.subrange(blk as int, blk + len),
        TaskState::Unlocking { result } => result.transferred ==> w.dst.subrange(
            result.blk as int,
            result.blk + result.len,
        ) == w.src.subrange(result.blk as int, result.blk + result.len),
        _ => true,
    } by {
        assert(v.slots[i] == TaskState::Idle);
    }
}

/// Marking a segment behind the cursor as transferred leaves the blocks ahead
/// of the cursor as they were in the map.
proof fn lemma_sync_ahead_unchanged(v: BackendView, blk: u64, len: u64, b: int)
    requires
        v.wf(),
        v.descriptor.start <= blk,
        (blk - v.descriptor.start) % (v.descriptor.segment_size_blks as int) == 0,
        0 < len <= v.descriptor.segment_size_blks,
        len == v.descriptor.segment_size_at(blk),
        blk + len <= v.next,
        v.next <= b < v.descriptor.end,
        v.descriptor.blk_synced(blk).is_blk_sync(b as u64),
    ensures
        v.descriptor.is_blk_sync(b as u64),
{
    let d = v.descriptor;
    let seg = d.segment_size_blks as int;
    if d.rebuild_map.is_some() {
        // The segment at `blk` is a full one: a short segment ends the range.
        assert(len == d.segment_size_blks);
        assert(b >= blk + seg);
        let q = (blk - d.start) / seg;
        vstd::arithmetic::div_mod::lemma_fundamental_div_mod(blk - d.start, seg);
        vstd::arithmetic::div_mod::lemma_fundamental_div_mod(b - d.start, seg);
        let qb = (b - d.start) / seg;
        assert(qb != q) by (nonlinear_arith)
            requires
                blk - d.start == seg * q,
                b - d.start == seg * qb + (b - d.start) % seg,
                0 <= (b - d.start) % seg < seg,
                b >= blk + seg,
                seg > 0,
        ;
    }
}

/// Every event keeps what holds of a job and its devices.
pub proof fn lemma_world_step_inv(w: World, e: WorldEvent)
    requires
        world_inv(w),
    ensures
        world_inv(world_step(w, e)),
{
    let v = w.backend;
    let d = v.descriptor;
    let w2 = world_step(w, e);
    let v2 = w2.backend;
    match e {
        WorldEvent::HostWrite { blk, data } => {
            if 0 <= blk < w.src.len() && !locked(v.slots, blk) {
                assert forall|i: int| 0 <= i < v.slots.len() implies match #[trigger] v.slots[i] {
                    TaskState::Writing { blk: b0, len: l0 } => w2.buffers[i] == w2.src.subrange(
                        b0 as int,
                        b0 + l0,
                    ),
                    TaskState::Unlocking { result } => result.transferred ==> w2.dst.subrange(
                        result.blk as int,
                        result.blk + result.len,
                    ) == w2.src.subrange(result.blk as int, result.blk + result.len),
                    _ => true,
                } by {
                    assert(slot_ok(d, v.next, v.slots[i]));
                    match v.slots[i] {
                        TaskState::Writing { blk: b0, len: l0 } => {
                            assert(!(b0 <= blk < b0 + l0));
                            assert(w2.src.subrange(b0 as int, b0 + l0) =~= w.src.subrange(
                                b0 as int,
                                b0 + l0,
                            ));
                        },
                        TaskState::Unlocking { result } => {
                            assert(!(result.blk <= blk < result.blk + result.len));
                            assert(w2.src.subrange(result.blk as int, result.blk + result.len)
                                =~= w.src.subrange(result.blk as int, result.blk + result.len));
                            assert(w2.dst.subrange(result.blk as int, result.blk + result.len)
                                =~= w.dst.subrange(result.blk as int, result.blk + result.len));
                        },
                        _ => {},
                    }
                }
            }
        },
        WorldEvent::Engine(be) => {
            lemma_apply_wf(v, be);
            match be {
                BackendEvent::Command { op, now } => {
                    assert(v2.slots == v.slots);
                },
                BackendEvent::Poll { now } => {
                    lemma_poll_devices(w, now);
                },
                BackendEvent::Task { slot, event, now } => {
                    if 0 <= slot < v.slots.len() {
                        lemma_task_devices(w, slot, event, now);
                    }
                },
            }
        },
    }
}

/// A report of a task keeps what holds of a job and its devices.
proof fn lemma_task_devices(w: World, slot: int, event: TaskEvent, now: i64)
    requires
        world_inv(w),
        0 <= slot < w.backend.slots.len(),
        apply(w.backend, BackendEvent::Task { slot, event, now }).wf(),
    ensures
        world_inv(world_step(w, WorldEvent::Engine(BackendEvent::Task { slot, event, now }))),
{
    let v = w.backend;
    let d = v.descriptor;
    let w2 = world_step(w, WorldEvent::Engine(BackendEvent::Task { slot, event, now }));
    let v2 = w2.backend;
    let st = v.slots[slot];
    let step = task_step(st, event);
    assert(slot_ok(d, v.next, st));
    assert(v2.slots == v.slots.update(slot, step.state));
    assert(v2.next == v.next);
    // The devices change on the segment of the task only.
    assert forall|b: int|
        0 <= b < w.dst.len() && !crate::backend_model::covers(st, b) implies w2.dst[b]
        == w.dst[b] by {}
    assert(w2.src == w.src);
    match (st, event) {
        (TaskState::Writing { blk, len }, TaskEvent::WriteDone) => {
            assert(w.buffers[slot].len() == len);
            assert forall|b: int| blk <= b < blk + len implies w2.dst[b] == w.src[b] by {
                assert(w.buffers[slot][b - blk] == w.src[b]);
            }
            assert(w2.dst.subrange(blk as int, blk + len) =~= w2.src.subrange(
                blk as int,
                blk + len,
            ));
        },
        _ => {
            assert(w2.dst == w.dst);
        },
    }
    // Blocks reported as copied or clean.
    assert forall|b: int| #[trigger] v2.synced.contains(b) implies w2.dst[b] == w2.src[b] by {
        if !v.synced.contains(b) {
            // The segment has just been reported as copied.
            match st {
                TaskState::Unlocking { result } => {
                    assert(result.transferred);
                    assert(w.dst.subrange(result.blk as int, result.blk + result.len)[b
                        - result.blk] == w.dst[b]);
                    assert(w.src.subrange(result.blk as int, result.blk + result.len)[b
                        - result.blk] == w.src[b]);
                },
                _ => {},
            }
        }
    }
    // Clean blocks ahead of the cursor.
    assert forall|b: int|
        v2.next <= b < v2.descriptor.end && #[trigger] v2.descriptor.is_blk_sync(
            b as u64,
        ) implies w2.dst[b] == w2.src[b] by {
        if v2.descriptor != d {
            match st.segment() {
                Some((blk, len)) => {
                    lemma_sync_ahead_unchanged(v, blk, len, b);
                },
                None => {},
            }
        }
        assert(d.is_blk_sync(b as u64));
    }
    // The buffers and the segments that were written.
    assert forall|i: int| 0 <= i < v2.slots.len() implies match #[trigger] v2.slots[i] {
        TaskState::Writing { blk, len } => w2.buffers[i] == w2.src.subrange(blk as int, blk + len),
        TaskState::Unlocking { result } => result.transferred ==> w2.dst.subrange(
            result.blk as int,
            result.blk + result.len,
        ) == w2.src.subrange(result.blk as int, result.blk + result.len),
        _ => true,
    } by {
        if i != slot {
            assert(v2.slots[i] == v.slots[i]);
            assert(slot_ok(d, v.next, v.slots[i]));
            match v.slots[i] {
                TaskState::Unlocking { result } => {
                    assert(w2.dst.subrange(result.blk as int, result.blk + result.len)
                        =~= w.dst.subrange(result.blk as int, result.blk + result.len));
                },
                _ => {},
            }
        }
    }
}

/// The blocks that a round of skipping adds to the blocks reported are clean
/// blocks between the old and the new cursor.
proof fn lemma_skip_clean_synced(v: BackendView, slot: int, now: i64, b: int)
    requires
        v.wf(),
        v.states.current == RebuildState::Running,
        0 <= slot < v.slots.len(),
        v.slots[slot] == TaskState::Idle,
        v.skip_clean(slot, now).synced.contains(b),
    ensures
        v.synced.contains(b) || (v.next <= b < v.skip_clean(slot, now).next
            && v.descriptor.is_blk_sync(b as u64)),
    decreases v.descriptor.end - v.next,
{
    let d = v.descriptor;
    if v.next < d.end && d.is_blk_sync(v.next) && d.segment_size_at(v.next) > 0 {
        lemma_started_wf(v, slot, now);
        let s = v.started(slot, now);
        crate::backend_proofs::lemma_skip_clean_wf(s, slot, now);
        lemma_skip_clean_synced(s, slot, now, b);
        if s.synced.contains(b) && !v.synced.contains(b) {
            crate::rebuild_descriptor::lemma_segment_size_bounds(d, v.next);
            lemma_segment_in_sync(d, v.next, d.segment_size_at(v.next), b);
        }
    }
}

/// A round of the scheduling loop keeps what holds of a job and its devices.
proof fn lemma_poll_devices(w: World, now: i64)
    requires
        world_inv(w),
        w.backend.poll(now).wf(),
    ensures
        world_inv(world_step(w, WorldEvent::Engine(BackendEvent::Poll { now }))),
{
    let v = w.backend;
    let d = v.descriptor;
    let w2 = world_step(w, WorldEvent::Engine(BackendEvent::Poll { now }));
    let v2 = w2.backend;
    let slot = first_free(v.slots);
    lemma_settle_wf(v, now);
    let s1 = v.settle(now);
    if s1.dispatch_ready() {
        let k = choose|k: int| 0 <= k < v.slots.len() && #[trigger] v.slots[k] == TaskState::Idle;
        lemma_first_free_exists(v.slots, k);
        crate::backend_proofs::lemma_skip_clean_wf(s1, slot, now);
        let s2 = s1.skip_clean(slot, now);
        assert forall|b: int| #[trigger] s2.synced.contains(b) implies w.dst[b] == w.src[b] by {
            lemma_skip_clean_synced(s1, slot, now, b);
        }
        if s2.next < s2.descriptor.end {
            lemma_started_wf(s2, slot, now);
            assert(!d.is_blk_sync(s2.next));
            crate::rebuild_descriptor::lemma_segment_size_bounds(d, s2.next);
            assert(v2.synced == s2.synced);
            assert forall|i: int| 0 <= i < v2.slots.len() implies match #[trigger] v2.slots[i] {
                TaskState::Writing { blk, len } => w2.buffers[i] == w2.src.subrange(
                    blk as int,
                    blk + len,
                ),
                TaskState::Unlocking { result } => result.transferred ==> w2.dst.subrange(
                    result.blk as int,
                    result.blk + result.len,
                ) == w2.src.subrange(result.blk as int, result.blk + result.len),
                _ => true,
            } by {
                if i != slot {
                    assert(v2.slots[i] == v.slots[i]);
                }
            }
        } else {
            assert(v2.slots == v.slots);
        }
    } else {
        assert(v2.slots == v.slots);
    }
}

/// Whatever commands, reports, rounds of the loop and host writes follow in
/// whatever order, what holds of a job and its devices holds after them.
pub proof fn lemma_world_run_inv(w: World, events: Seq<WorldEvent>)
    requires
        world_inv(w),
    ensures
        world_inv(world_run(w, events)),
    decreases events.len(),
{
    if events.len() > 0 {
        lemma_world_run_inv(w, events.drop_last());
        lemma_world_step_inv(world_run(w, events.drop_last()), events.last());
    }
}

/// After a job has completed, every block of its range is the same on the
/// destination as on the source: whatever the order of the reports, however
/// often the job was paused and resumed, and whatever the host wrote
/// meanwhile.
pub proof fn lemma_completed_destination_equals_source(
    w: World,
    events: Seq<WorldEvent>,
    b: int,
)
    requires
        world_init(w),
        world_run(w, events).backend.states.current == RebuildState::Completed,
        w.backend.descriptor.start <= b < w.backend.descriptor.end,
    ensures
        world_run(w, events).dst[b] == world_run(w, events).src[b],
{
    lemma_world_init_inv(w);
    lemma_world_run_inv(w, events);
    let end = world_run(w, events);
    lemma_run_keeps_range(w, events);
    lemma_completed_all_synced(end.backend, b);
}

/// No event changes the range of a job.
pub proof fn lemma_run_keeps_range(w: World, events: Seq<WorldEvent>)
    requires
        world_inv(w),
    ensures
        world_run(w, events).backend.descriptor.start == w.backend.descriptor.start,
        world_run(w, events).backend.descriptor.end == w.backend.descriptor.end,
    decreases events.len(),
{
    if events.len() > 0 {
        lemma_run_keeps_range(w, events.drop_last());
        lemma_world_run_inv(w, events.drop_last());
        let prev = world_run(w, events.drop_last());
        match events.last() {
            WorldEvent::Engine(be) => {
                lemma_apply_keeps_range(prev.backend, be);
            },
            _ => {},
        }
    }
}

} // verus!
