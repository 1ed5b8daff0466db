//! What holds of every rebuild job, stated over the model of the scheduler
//! and proved from its invariant.
use vstd::prelude::*;

use crate::backend_model::{covers, held, inflight_blocks, slot_ok, BackendAction, BackendView};
use crate::backend_proofs::{
    lemma_command_wf,
    lemma_first_free_unique,
    lemma_idle_pool,
    lemma_init_wf,
    lemma_poll_wf,
    lemma_settle_wf,
    lemma_skip_clean_wf,
    lemma_stepped_wf,
};
use crate::range::ranges_disjoint;
use crate::rebuild_descriptor::{segments_in, RebuildDescriptorView};
use crate::rebuild_state::{
    legal_step,
    op_outcome,
    RebuildOperation,
    RebuildState,
    RebuildStates,
};
use crate::rebuild_task::{TaskAction, TaskEvent, TaskState};

verus! {

/// What can happen to a scheduler.
pub enum BackendEvent {
    /// The command `op` arrives at the time `now`.
    Command { op: RebuildOperation, now: i64 },
    /// The copy task in `slot` reports `event` at the time `now`.
    Task { slot: int, event: TaskEvent, now: i64 },
    /// The scheduling loop takes a round at the time `now`.
    Poll { now: i64 },
}

/// The scheduler after one event.
pub open spec fn apply(v: BackendView, e: BackendEvent) -> BackendView {
    match e {
        BackendEvent::Command { op, now } => v.command(op, now),
        BackendEvent::Task { slot, event, now } => v.stepped(slot, event, now),
        BackendEvent::Poll { now } => v.poll(now),
    }
}

/// The scheduler after a sequence of events.
pub open spec fn run(v: BackendView, events: Seq<BackendEvent>) -> BackendView
    decreases events.len(),
{
    if events.len() == 0 {
        v
    } else {
        apply(run(v, events.drop_last()), events.last())
    }
}

/// Every event keeps the invariant, moves the state of the job along the
/// table of transitions or leaves it, and leaves a terminal state as it is.
pub proof fn lemma_apply_wf(v: BackendView, e: BackendEvent)
    requires
        v.wf(),
    ensures
        apply(v, e).wf(),
        legal_step(v.states.current, apply(v, e).states.current),
        v.states.current.is_terminal() ==> apply(v, e).states == v.states,
{
    match e {
        BackendEvent::Command { op, now } => {
            lemma_command_wf(v, op, now);
        },
        BackendEvent::Task { slot, event, now } => {
            lemma_stepped_wf(v, slot, event, now);
        },
        BackendEvent::Poll { now } => {
            lemma_poll_wf(v, now);
        },
    }
}

/// No event changes the geometry of a rebuild: the range, the segment size
/// and the block size stay as they are.
pub proof fn lemma_apply_keeps_range(v: BackendView, e: BackendEvent)
    requires
        v.wf(),
    ensures
        apply(v, e).descriptor.start == v.descriptor.start,
        apply(v, e).descriptor.end == v.descriptor.end,
        apply(v, e).descriptor.segment_size_blks == v.descriptor.segment_size_blks,
        apply(v, e).descriptor.block_size == v.descriptor.block_size,
        apply(v, e).slots.len() == v.slots.len(),
{
    match e {
        BackendEvent::Command { op, now } => {},
        BackendEvent::Task { slot, event, now } => {},
        BackendEvent::Poll { now } => {
            let slot = crate::backend_model::first_free(v.slots);
            lemma_settle_wf(v, now);
            let s1 = v.settle(now);
            if s1.dispatch_ready() {
                let k = choose|k: int|
                    0 <= k < v.slots.len() && #[trigger] v.slots[k] == TaskState::Idle;
                crate::backend_proofs::lemma_first_free_exists(v.slots, k);
                lemma_skip_clean_wf(s1, slot, now);
                let s2 = s1.skip_clean(slot, now);
                if s2.next < s2.descriptor.end {
                    crate::backend_proofs::lemma_started_wf(s2, slot, now);
                }
            }
        },
    }
}

/// Whatever commands, task events and rounds of the loop follow in whatever
/// order, the invariant holds after them, and a job that was in a terminal
/// state is still in that state.
pub proof fn lemma_run_wf(v: BackendView, events: Seq<BackendEvent>)
    requires
        v.wf(),
    ensures
        run(v, events).wf(),
        v.states.current.is_terminal() ==> run(v, events).states == v.states,
    decreases events.len(),
{
    if events.len() > 0 {
        lemma_run_wf(v, events.drop_last());
        lemma_apply_wf(run(v, events.drop_last()), events.last());
    }
}

/// In every run of a job, each single event moves the state along the table
/// of transitions or leaves it.
pub proof fn lemma_run_follows_table(
    d: RebuildDescriptorView,
    tasks: nat,
    window_secs: u64,
    events: Seq<BackendEvent>,
    e: BackendEvent,
)
    requires
        d.wf(),
        crate::SEGMENT_TASKS_MIN <= tasks <= crate::SEGMENT_TASKS_MAX,
    ensures
        legal_step(
            run(BackendView::init(d, tasks, window_secs), events).states.current,
            run(BackendView::init(d, tasks, window_secs), events.push(e)).states.current,
        ),
{
    let v0 = BackendView::init(d, tasks, window_secs);
    lemma_init_wf(d, tasks, window_secs);
    lemma_run_wf(v0, events);
    assert(events.push(e).drop_last() =~= events);
    lemma_apply_wf(run(v0, events), e);
}

/// Segments are handed out in ascending order, one to the first idle task in
/// each round: a round hands out the first segment at or after the cursor
/// that is not in sync, at its full length or at what is left of the range,
/// and moves the cursor past it. A task is only ever started with the request
/// for its lock, and a round that hands out nothing leaves the pool alone.
pub proof fn lemma_dispatch_in_order(v: BackendView, now: i64)
    requires
        v.wf(),
    ensures
        match v.next_action(now) {
            BackendAction::Task { slot, action } => {
                &&& v.states == (RebuildStates { current: RebuildState::Running, pending: None })
                &&& crate::backend_model::is_first_free(v.slots, slot as int)
                &&& match action {
                    TaskAction::Lock { blk, len } => {
                        &&& v.next <= blk < v.descriptor.end
                        &&& !v.descriptor.is_blk_sync(blk)
                        &&& 0 < len == v.descriptor.segment_size_at(blk)
                        &&& v.poll(now).next == blk + len
                        &&& v.poll(now).slots == v.slots.update(
                            slot as int,
                            TaskState::AwaitLock { blk, len, retried: false },
                        )
                    },
                    _ => false,
                }
            },
            _ => v.poll(now).slots == v.slots,
        },
{
    let slot = crate::backend_model::first_free(v.slots);
    lemma_settle_wf(v, now);
    let s1 = v.settle(now);
    if s1.dispatch_ready() {
        let k = choose|k: int| 0 <= k < v.slots.len() && #[trigger] v.slots[k] == TaskState::Idle;
        crate::backend_proofs::lemma_first_free_exists(v.slots, k);
        lemma_skip_clean_wf(s1, slot, now);
        let s2 = s1.skip_clean(slot, now);
        if s2.next < s2.descriptor.end {
            crate::backend_proofs::lemma_started_wf(s2, slot, now);
            crate::rebuild_descriptor::lemma_segment_size_bounds(s2.descriptor, s2.next);
            assert(s2.started(slot, now).slots =~= v.slots.update(
                slot,
                TaskState::AwaitLock {
                    blk: s2.next,
                    len: s2.descriptor.segment_size_at(s2.next),
                    retried: false,
                },
            ));
        }
    }
}

/// The blocks copied and the blocks skipped never exceed the blocks of the
/// range, and on completion they add up to them.
pub proof fn lemma_blocks_accounted(v: BackendView)
    requires
        v.wf(),
    ensures
        v.blocks_transferred + v.blocks_skipped <= v.blocks_total(),
        v.states.current == RebuildState::Completed ==> v.blocks_transferred + v.blocks_skipped
            == v.blocks_total(),
{
    if v.states.current == RebuildState::Completed {
        lemma_idle_pool(v.slots);
    }
}

/// In every run of a job the blocks copied and the blocks skipped never
/// exceed the blocks of the range, and on completion they add up to them.
pub proof fn lemma_run_blocks_accounted(
    d: RebuildDescriptorView,
    tasks: nat,
    window_secs: u64,
    events: Seq<BackendEvent>,
)
    requires
        d.wf(),
        crate::SEGMENT_TASKS_MIN <= tasks <= crate::SEGMENT_TASKS_MAX,
    ensures
        ({
            let v = run(BackendView::init(d, tasks, window_secs), events);
            &&& v.blocks_transferred + v.blocks_skipped <= v.blocks_total()
            &&& (v.states.current == RebuildState::Completed ==> v.blocks_transferred
                + v.blocks_skipped == v.blocks_total())
        }),
{
    lemma_init_wf(d, tasks, window_secs);
    lemma_run_wf(BackendView::init(d, tasks, window_secs), events);
    lemma_blocks_accounted(run(BackendView::init(d, tasks, window_secs), events));
}

/// The ranges that two different copy tasks hold locked share no block, and
/// no task holds more than one segment size locked.
pub proof fn lemma_locked_ranges_disjoint(v: BackendView, i: int, j: int)
    requires
        v.wf(),
        0 <= i < v.slots.len(),
        0 <= j < v.slots.len(),
        i != j,
    ensures
        match v.slots[i].locked_range() {
            Some((b1, l1)) => {
                &&& 0 < l1 <= v.descriptor.segment_size_blks
                &&& v.descriptor.start <= b1
                &&& b1 + l1 <= v.descriptor.end
                &&& match v.slots[j].locked_range() {
                    Some((b2, l2)) => ranges_disjoint(b1 as int, b1 + l1, b2 as int, b2 + l2),
                    None => true,
                }
            },
            None => true,
        },
{
    assert(slot_ok(v.descriptor, v.next, v.slots[i]));
    assert(slot_ok(v.descriptor, v.next, v.slots[j]));
    assert(v.slots[i].locked_range().is_some() ==> v.slots[i].segment()
        == v.slots[i].locked_range());
    assert(v.slots[j].locked_range().is_some() ==> v.slots[j].segment()
        == v.slots[j].locked_range());
}

/// Once a job is completed, every block of its range belongs to a segment
/// that a copy task has reported as copied, or that was clean in the map.
pub proof fn lemma_completed_all_synced(v: BackendView, b: int)
    requires
        v.wf(),
        v.states.current == RebuildState::Completed,
        v.descriptor.start <= b < v.descriptor.end,
    ensures
        v.synced.contains(b),
        v.descriptor.rebuild_map.is_some() ==> v.descriptor.is_blk_sync(b as u64),
{
    if held(v.slots, b) {
        let i = choose|i: int| 0 <= i < v.slots.len() && covers(#[trigger] v.slots[i], b);
        assert(v.slots[i] == TaskState::Idle);
    }
}

/// Once a job with a map is completed, every segment of the map is clean.
pub proof fn lemma_completed_map_all_clean(v: BackendView)
    requires
        v.wf(),
        v.states.current == RebuildState::Completed,
        v.descriptor.rebuild_map.is_some(),
    ensures
        v.descriptor.rebuild_map.unwrap().all_clean(),
{
    let d = v.descriptor;
    let m = d.rebuild_map.unwrap();
    let seg = d.segment_size_blks as int;
    let total = d.end - d.start;
    assert forall|i: int| 0 <= i < m.clean.len() implies m.clean[i] by {
        vstd::arithmetic::div_mod::lemma_fundamental_div_mod(total, seg);
        assert(i * seg < total) by (nonlinear_arith)
            requires
                0 <= i < segments_in(total, seg),
                seg > 0,
                total == seg * (total / seg) + total % seg,
                0 <= total % seg < seg,
                segments_in(total, seg) == if total % seg == 0 {
                    total / seg
                } else {
                    total / seg + 1
                },
        ;
        assert(i * seg >= 0) by (nonlinear_arith)
            requires
                i >= 0,
                seg > 0,
        ;
        let b = d.start + i * seg;
        lemma_completed_all_synced(v, b);
        vstd::arithmetic::div_mod::lemma_fundamental_div_mod_converse(i * seg, seg, i, 0);
        let rel = (b - d.start) as u64;
        assert(rel == i * seg);
        assert(rel / d.segment_size_blks == i);
        assert(m.segment_of(rel) == Some(i));
    }
}

/// With a map whose segments are all clean, a started job is completed by the
/// first round of the scheduling loop, hands no segment to any task and
/// transfers nothing: every block is counted as skipped.
pub proof fn lemma_clean_map_completes(
    d: RebuildDescriptorView,
    tasks: nat,
    window_secs: u64,
    t1: i64,
    t2: i64,
)
    requires
        d.wf(),
        crate::SEGMENT_TASKS_MIN <= tasks <= crate::SEGMENT_TASKS_MAX,
        d.rebuild_map.is_some(),
        d.rebuild_map.unwrap().all_clean(),
    ensures
        ({
            let started = BackendView::init(d, tasks, window_secs).command(
                RebuildOperation::Start,
                t1,
            );
            &&& started.states.current == RebuildState::Running
            &&& started.poll(t2).states.current == RebuildState::Completed
            &&& started.poll(t2).blocks_transferred == 0
            &&& started.poll(t2).blocks_skipped == d.end - d.start
            &&& started.next_action(t2) == BackendAction::Exit(RebuildState::Completed)
        }),
{
    let v0 = BackendView::init(d, tasks, window_secs);
    lemma_init_wf(d, tasks, window_secs);
    let v1 = v0.command(RebuildOperation::Start, t1);
    lemma_command_wf(v0, RebuildOperation::Start, t1);
    assert(v1.slots == v0.slots);
    assert(v1.quiesced());
    let s1 = v1.settle(t2);
    lemma_settle_wf(v1, t2);
    assert(s1.states == v1.states);
    assert(s1.slots[0] == TaskState::Idle);
    assert(s1.dispatch_ready());
    assert(crate::backend_model::is_first_free(v1.slots, 0));
    lemma_first_free_unique(v1.slots, 0);
    lemma_skip_clean_wf(s1, 0, t2);
    let s2 = s1.skip_clean(0, t2);
    lemma_all_clean_in_sync(d, s2.next);
    assert(s2.next == d.end);
    lemma_settle_wf(s2, t2);
    let s3 = s2.settle(t2);
    assert(s2.quiesced());
    assert(s3.states.current == RebuildState::Completed);
    lemma_blocks_accounted(s3);
    assert(s3.quiesced());
}

/// With a map whose segments are all clean, every block is in sync.
pub proof fn lemma_all_clean_in_sync(d: RebuildDescriptorView, blk: u64)
    requires
        d.rebuild_map.is_some(),
        d.rebuild_map.unwrap().all_clean(),
    ensures
        d.is_blk_sync(blk),
{
}

/// Pausing and resuming change nothing but the state of the job: the cursor,
/// the pool, the map and every counter stay as they are.
pub proof fn lemma_pause_resume_keep_progress(v: BackendView, op: RebuildOperation, now: i64)
    requires
        v.wf(),
        op == RebuildOperation::Pause || op == RebuildOperation::Resume,
    ensures
        v.command(op, now) == (BackendView {
            states: v.command(op, now).states,
            end_time: v.command(op, now).end_time,
            ..v
        }),
        !v.states.current.is_terminal() ==> v.command(op, now).end_time == v.end_time,
{
}

/// A pause followed by a resume leaves a running job exactly as it was,
/// whether or not tasks were in flight; so does a settled pause followed by a
/// resume.
pub proof fn lemma_pause_resume_identity(v: BackendView, t1: i64, t2: i64, t3: i64)
    requires
        v.wf(),
        v.states == (RebuildStates { current: RebuildState::Running, pending: None }),
    ensures
        v.command(RebuildOperation::Pause, t1).command(RebuildOperation::Resume, t2) == v,
        v.quiesced() ==> v.command(RebuildOperation::Pause, t1).states.current
            == RebuildState::Paused,
        v.quiesced() ==> v.command(RebuildOperation::Pause, t1).settle(t3).command(
            RebuildOperation::Resume,
            t2,
        ) == v,
{
    let p = v.command(RebuildOperation::Pause, t1);
    assert(p.slots == v.slots);
    assert(p.quiesced() == v.quiesced());
    let r = p.command(RebuildOperation::Resume, t2);
    assert(r.states == v.states);
    assert(r.end_time == v.end_time);
    if v.quiesced() {
        let s = p.settle(t3);
        assert(s == p);
    }
}

/// Stopping a job that has ended changes nothing, is accepted, and reports
/// the terminal state.
pub proof fn lemma_stop_after_end(v: BackendView, now: i64)
    requires
        v.wf(),
        v.states.current.is_terminal(),
    ensures
        v.command(RebuildOperation::Stop, now) == v,
        op_outcome(v.states, RebuildOperation::Stop, v.quiesced()).accepted,
        op_outcome(v.states, RebuildOperation::Stop, v.quiesced()).current == v.states.current,
{
    lemma_command_wf(v, RebuildOperation::Stop, now);
}

/// When no task is in flight, no range is locked and no block is in the hand
/// of a task: a job that has left its loop holds no lock.
pub proof fn lemma_quiesced_holds_no_lock(v: BackendView, i: int)
    requires
        v.quiesced(),
        0 <= i < v.slots.len(),
    ensures
        v.slots[i].locked_range().is_none(),
        inflight_blocks(v.slots) == 0,
{
    lemma_idle_pool(v.slots);
}

} // verus!
