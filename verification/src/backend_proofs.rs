//! Proofs about the model of the scheduler: every step keeps the invariant.
use vstd::prelude::*;

use crate::backend_model::{
    busy_count,
    covers,
    first_free,
    held,
    inflight_blocks,
    is_first_free,
    seg_len,
    slot_ok,
    BackendView,
};
use crate::rebuild_descriptor::{
    lemma_blk_synced_keeps_wf,
    lemma_segment_size_bounds,
    RebuildDescriptorView,
};
use crate::rebuild_state::{legal_step, RebuildOperation, RebuildState};
use crate::rebuild_task::{task_start, task_step, TaskAction, TaskEvent, TaskResult, TaskState};

verus! {

/// Replacing the task in one slot changes the blocks in hand by the
/// difference of the two segments.
pub proof fn lemma_inflight_update(slots: Seq<TaskState>, i: int, state: TaskState)
    requires
        0 <= i < slots.len(),
    ensures
        inflight_blocks(slots.update(i, state)) == inflight_blocks(slots) - seg_len(slots[i])
            + seg_len(state),
    decreases slots.len(),
{
    let updated = slots.update(i, state);
    if i == slots.len() - 1 {
        assert(updated.drop_last() =~= slots.drop_last());
    } else {
        assert(updated.drop_last() =~= slots.drop_last().update(i, state));
        lemma_inflight_update(slots.drop_last(), i, state);
    }
}

/// A pool of idle tasks has no block in hand and no busy task.
pub proof fn lemma_idle_pool(slots: Seq<TaskState>)
    requires
        forall|i: int| 0 <= i < slots.len() ==> #[trigger] slots[i] == TaskState::Idle,
    ensures
        inflight_blocks(slots) == 0,
        busy_count(slots) == 0,
    decreases slots.len(),
{
    if slots.len() > 0 {
        assert(slots.last() == TaskState::Idle);
        assert forall|i: int| 0 <= i < slots.drop_last().len() implies #[trigger] slots.drop_last()[i]
            == TaskState::Idle by {
            assert(slots.drop_last()[i] == slots[i]);
        }
        lemma_idle_pool(slots.drop_last());
    }
}

/// Blocks that start on the same segment boundary lie in the same segment of
/// the map.
pub proof fn lemma_same_segment(start: int, seg: int, blk: int, b: int)
    requires
        seg > 0,
        start <= blk,
        (blk - start) % seg == 0,
        blk <= b < blk + seg,
    ensures
        (b - start) / seg == (blk - start) / seg,
{
    let q = (blk - start) / seg;
    vstd::arithmetic::div_mod::lemma_fundamental_div_mod(blk - start, seg);
    assert(blk - start == seg * q);
    assert(b - start == q * seg + (b - blk)) by (nonlinear_arith)
        requires
            blk - start == seg * q,
    ;
    vstd::arithmetic::div_mod::lemma_fundamental_div_mod_converse(b - start, seg, q, b - blk);
}

/// The cursor stays on a segment boundary when it moves by a full segment.
pub proof fn lemma_next_boundary(start: int, seg: int, blk: int)
    requires
        seg > 0,
        start <= blk,
        (blk - start) % seg == 0,
    ensures
        (blk + seg - start) % seg == 0,
{
    let q = (blk - start) / seg;
    vstd::arithmetic::div_mod::lemma_fundamental_div_mod(blk - start, seg);
    assert(blk + seg - start == (q + 1) * seg + 0) by (nonlinear_arith)
        requires
            blk - start == seg * q,
    ;
    vstd::arithmetic::div_mod::lemma_fundamental_div_mod_converse(blk + seg - start, seg, q + 1, 0);
}

/// Once the segment that starts at `blk` is marked as transferred, each of
/// its blocks is in sync.
pub proof fn lemma_segment_synced(d: RebuildDescriptorView, blk: u64, len: u64, b: int)
    requires
        d.wf(),
        d.rebuild_map.is_some(),
        d.start <= blk,
        (blk - d.start) % (d.segment_size_blks as int) == 0,
        0 < len <= d.segment_size_blks,
        blk + len <= d.end,
        blk <= b < blk + len,
    ensures
        d.blk_synced(blk).is_blk_sync(b as u64),
{
    lemma_same_segment(d.start as int, d.segment_size_blks as int, blk as int, b);
}

/// When the first block of a segment is in sync, so is each of its blocks.
pub proof fn lemma_segment_in_sync(d: RebuildDescriptorView, blk: u64, len: u64, b: int)
    requires
        d.wf(),
        d.is_blk_sync(blk),
        d.start <= blk,
        (blk - d.start) % (d.segment_size_blks as int) == 0,
        0 < len <= d.segment_size_blks,
        blk + len <= d.end,
        blk <= b < blk + len,
    ensures
        d.is_blk_sync(b as u64),
{
    lemma_same_segment(d.start as int, d.segment_size_blks as int, blk as int, b);
}

/// The first idle task of a pool is the only one that has no idle task before
/// it.
pub proof fn lemma_first_free_unique(slots: Seq<TaskState>, i: int)
    requires
        is_first_free(slots, i),
    ensures
        first_free(slots) == i,
{
    let j = first_free(slots);
    assert(is_first_free(slots, j));
    if j < i {
        assert(slots[j] != TaskState::Idle);
    }
    if i < j {
        assert(slots[i] != TaskState::Idle);
    }
}

/// A pool in which task `k` is idle has a first idle task.
pub proof fn lemma_first_free_exists(slots: Seq<TaskState>, k: int)
    requires
        0 <= k < slots.len(),
        slots[k] == TaskState::Idle,
    ensures
        is_first_free(slots, first_free(slots)),
    decreases k,
{
    if forall|j: int| 0 <= j < k ==> #[trigger] slots[j] != TaskState::Idle {
        assert(is_first_free(slots, k));
    } else {
        let j = choose|j: int| 0 <= j < k && #[trigger] slots[j] == TaskState::Idle;
        lemma_first_free_exists(slots, j);
    }
}

/// The scheduler of a new job meets the invariant.
pub proof fn lemma_init_wf(descriptor: RebuildDescriptorView, tasks: nat, window_secs: u64)
    requires
        descriptor.wf(),
        crate::SEGMENT_TASKS_MIN <= tasks <= crate::SEGMENT_TASKS_MAX,
    ensures
        BackendView::init(descriptor, tasks, window_secs).wf(),
        BackendView::init(descriptor, tasks, window_secs).quiesced(),
{
    let v = BackendView::init(descriptor, tasks, window_secs);
    lemma_idle_pool(v.slots);
    assert(0int % (descriptor.segment_size_blks as int) == 0) by (nonlinear_arith)
        requires
            descriptor.segment_size_blks > 0,
    ;
}

/// A command keeps the invariant and moves the state along the table or
/// leaves it.
pub proof fn lemma_command_wf(v: BackendView, op: RebuildOperation, now: i64)
    requires
        v.wf(),
    ensures
        v.command(op, now).wf(),
        legal_step(v.states.current, v.command(op, now).states.current),
        v.states.current.is_terminal() ==> v.command(op, now) == v,
{
    let w = v.command(op, now);
    assert(w.slots == v.slots);
    assert(w.quiesced() == v.quiesced());
    if v.quiesced() {
        lemma_idle_pool(v.slots);
    }
    if w.states.current != RebuildState::Failed {
        assert(v.states.current != RebuildState::Failed);
    }
}

/// Reconciling keeps the invariant and moves the state along the table or
/// leaves it.
pub proof fn lemma_settle_wf(v: BackendView, now: i64)
    requires
        v.wf(),
    ensures
        v.settle(now).wf(),
        legal_step(v.states.current, v.settle(now).states.current),
        v.states.current.is_terminal() ==> v.settle(now) == v,
{
    let w = v.settle(now);
    assert(w.slots == v.slots);
    assert(w.quiesced() == v.quiesced());
    if w.states.current != RebuildState::Failed {
        assert(v.states.current != RebuildState::Failed);
    }
}

/// Folding in the result of the segment that the task in `slot` has just let
/// go keeps the invariant. `before` is the scheduler while the task still
/// held the segment `[blk, blk + len)`.
pub proof fn lemma_release_wf(before: BackendView, slot: int, result: TaskResult, now: i64)
    requires
        before.wf(),
        0 <= slot < before.slots.len(),
        before.slots[slot].segment() == Some((result.blk, result.len)),
        result.transferred == result.error.is_none(),
    ensures
        (BackendView { slots: before.slots.update(slot, TaskState::Idle), ..before }).folded(
            result,
            now,
        ).wf(),
{
    let d = before.descriptor;
    let moved = BackendView { slots: before.slots.update(slot, TaskState::Idle), ..before };
    let after = moved.folded(result, now);
    lemma_inflight_update(before.slots, slot, TaskState::Idle);
    assert(slot_ok(d, before.next, before.slots[slot]));
    assert(!before.quiesced());
    lemma_blk_synced_keeps_wf(d, result.blk);
    let da = after.descriptor;
    assert forall|i: int| 0 <= i < after.slots.len() implies slot_ok(
        da,
        after.next,
        #[trigger] after.slots[i],
    ) by {
        if i != slot {
            assert(after.slots[i] == before.slots[i]);
            assert(slot_ok(d, before.next, before.slots[i]));
        }
    }
    assert forall|i: int, j: int|
        0 <= i < after.slots.len() && 0 <= j < after.slots.len() && i != j implies match (
        (#[trigger] after.slots[i]).segment(),
        (#[trigger] after.slots[j]).segment(),
    ) {
        (Some((b1, l1)), Some((b2, l2))) => crate::range::ranges_disjoint(
            b1 as int,
            b1 + l1,
            b2 as int,
            b2 + l2,
        ),
        _ => true,
    } by {
        if i != slot && j != slot {
            assert(after.slots[i] == before.slots[i]);
            assert(after.slots[j] == before.slots[j]);
        }
    }
    if !after.quiesced() {
        assert(after.states.current == RebuildState::Running || after.states.current
            == RebuildState::Failed);
    }
    if result.error.is_none() {
        assert forall|b: int| #[trigger] after.synced.contains(b) implies da.start <= b
            < after.next by {
            if !before.synced.contains(b) {
                assert(result.blk <= b < result.blk + result.len);
            }
        }
        if after.states.current != RebuildState::Failed {
            assert forall|b: int| da.start <= b < after.next implies #[trigger] after.synced.contains(
                b,
            ) || held(after.slots, b) by {
                if !after.synced.contains(b) {
                    assert(!before.synced.contains(b));
                    assert(held(before.slots, b));
                    let i = choose|i: int|
                        0 <= i < before.slots.len() && covers(#[trigger] before.slots[i], b);
                    assert(i != slot);
                    assert(covers(after.slots[i], b));
                }
            }
        }
        if da.rebuild_map.is_some() {
            assert forall|b: int| #[trigger] after.synced.contains(b) implies da.is_blk_sync(
                b as u64,
            ) by {
                if before.synced.contains(b) {
                    assert(d.is_blk_sync(b as u64));
                } else {
                    lemma_segment_synced(d, result.blk, result.len, b);
                }
            }
        }
    }
}

/// An event of a task keeps the invariant of the scheduler and moves the
/// state of the job along the table or leaves it.
pub proof fn lemma_stepped_wf(v: BackendView, slot: int, event: TaskEvent, now: i64)
    requires
        v.wf(),
    ensures
        v.stepped(slot, event, now).wf(),
        legal_step(v.states.current, v.stepped(slot, event, now).states.current),
        v.states.current.is_terminal() ==> v.stepped(slot, event, now).states == v.states,
{
    if 0 <= slot < v.slots.len() {
        let d = v.descriptor;
        let step = task_step(v.slots[slot], event);
        let moved = BackendView { slots: v.slots.update(slot, step.state), ..v };
        assert(slot_ok(d, v.next, v.slots[slot]));
        match step.action {
            TaskAction::Emit(result) => {
                assert(step.state == TaskState::Idle);
                assert(v.slots[slot].segment() == Some((result.blk, result.len)));
                lemma_release_wf(v, slot, result, now);
            },
            _ => {
                assert(step.state.segment() == v.slots[slot].segment());
                assert((step.state == TaskState::Idle) == (v.slots[slot] == TaskState::Idle));
                lemma_inflight_update(v.slots, slot, step.state);
                assert forall|i: int| 0 <= i < moved.slots.len() implies slot_ok(
                    d,
                    moved.next,
                    #[trigger] moved.slots[i],
                ) by {
                    if i != slot {
                        assert(moved.slots[i] == v.slots[i]);
                        assert(slot_ok(d, v.next, v.slots[i]));
                    }
                }
                assert forall|i: int, j: int|
                    0 <= i < moved.slots.len() && 0 <= j < moved.slots.len() && i
                        != j implies match (
                    (#[trigger] moved.slots[i]).segment(),
                    (#[trigger] moved.slots[j]).segment(),
                ) {
                    (Some((b1, l1)), Some((b2, l2))) => crate::range::ranges_disjoint(
                        b1 as int,
                        b1 + l1,
                        b2 as int,
                        b2 + l2,
                    ),
                    _ => true,
                } by {
                    assert(moved.slots[i].segment() == v.slots[i].segment());
                    assert(moved.slots[j].segment() == v.slots[j].segment());
                }
                if !moved.quiesced() {
                    let k = choose|k: int|
                        0 <= k < moved.slots.len() && #[trigger] moved.slots[k] != TaskState::Idle;
                    assert(v.slots[k] != TaskState::Idle);
                    assert(!v.quiesced());
                }
                if moved.states.current == RebuildState::Completed {
                    assert(v.quiesced());
                    assert forall|i: int| 0 <= i < moved.slots.len() implies #[trigger] moved.slots[i]
                        == TaskState::Idle by {
                        assert(v.slots[i] == TaskState::Idle);
                    }
                }
                if moved.states.current != RebuildState::Failed {
                    assert forall|b: int| d.start <= b < moved.next implies #[trigger] moved.synced.contains(
                    b) || held(moved.slots, b) by {
                        if !moved.synced.contains(b) {
                            assert(held(v.slots, b));
                            let i = choose|i: int|
                                0 <= i < v.slots.len() && covers(#[trigger] v.slots[i], b);
                            assert(moved.slots[i].segment() == v.slots[i].segment());
                            assert(covers(moved.slots[i], b));
                        }
                    }
                }
            },
        }
    }
}

/// Starting the idle task in `slot` on the segment at the cursor keeps the
/// invariant of a running job.
pub proof fn lemma_started_wf(v: BackendView, slot: int, now: i64)
    requires
        v.wf(),
        v.states.current == RebuildState::Running,
        v.next < v.descriptor.end,
        0 <= slot < v.slots.len(),
        v.slots[slot] == TaskState::Idle,
    ensures
        v.started(slot, now).wf(),
        v.started(slot, now).states == v.states,
        v.started(slot, now).next == v.next + v.descriptor.segment_size_at(v.next),
        v.started(slot, now).next > v.next,
        v.started(slot, now).descriptor == v.descriptor,
        v.started(slot, now).blocks_transferred == v.blocks_transferred,
        v.started(slot, now).end_time == v.end_time,
        v.started(slot, now).slots.len() == v.slots.len(),
        v.descriptor.is_blk_sync(v.next) ==> v.started(slot, now).slots == v.slots,
{
    let d = v.descriptor;
    let blk = v.next;
    let len = d.segment_size_at(blk);
    lemma_segment_size_bounds(d, blk);
    let step = task_start(TaskState::Idle, d, blk);
    let after = v.started(slot, now);
    lemma_inflight_update(v.slots, slot, step.state);
    if len == d.segment_size_blks {
        lemma_next_boundary(d.start as int, d.segment_size_blks as int, blk as int);
    }
    assert(after.slots =~= v.slots.update(slot, step.state));
    if d.is_blk_sync(blk) {
        assert(after.slots =~= v.slots);
    }
    assert forall|i: int| 0 <= i < after.slots.len() implies slot_ok(
        d,
        after.next,
        #[trigger] after.slots[i],
    ) by {
        if i != slot {
            assert(after.slots[i] == v.slots[i]);
            assert(slot_ok(d, v.next, v.slots[i]));
        }
    }
    assert forall|i: int, j: int|
        0 <= i < after.slots.len() && 0 <= j < after.slots.len() && i != j implies match (
        (#[trigger] after.slots[i]).segment(),
        (#[trigger] after.slots[j]).segment(),
    ) {
        (Some((b1, l1)), Some((b2, l2))) => crate::range::ranges_disjoint(
            b1 as int,
            b1 + l1,
            b2 as int,
            b2 + l2,
        ),
        _ => true,
    } by {
        if i != slot {
            assert(after.slots[i] == v.slots[i]);
            assert(slot_ok(d, v.next, v.slots[i]));
        }
        if j != slot {
            assert(after.slots[j] == v.slots[j]);
            assert(slot_ok(d, v.next, v.slots[j]));
        }
    }
    assert forall|b: int| #[trigger] after.synced.contains(b) implies d.start <= b
        < after.next by {
        if !v.synced.contains(b) {
            assert(blk <= b < blk + len);
        }
    }
    assert forall|b: int| d.start <= b < after.next implies #[trigger] after.synced.contains(b)
        || held(after.slots, b) by {
        if b < v.next {
            if !v.synced.contains(b) {
                assert(held(v.slots, b));
                let i = choose|i: int| 0 <= i < v.slots.len() && covers(#[trigger] v.slots[i], b);
                assert(i != slot);
                assert(after.slots[i] == v.slots[i]);
                assert(covers(after.slots[i], b));
            }
        } else {
            if !d.is_blk_sync(blk) {
                assert(covers(after.slots[slot], b));
            }
        }
    }
    if d.rebuild_map.is_some() {
        assert forall|b: int| #[trigger] after.synced.contains(b) implies d.is_blk_sync(
            b as u64,
        ) by {
            if !v.synced.contains(b) {
                lemma_segment_in_sync(d, blk, len, b);
            }
        }
    }
}

/// Skipping the clean segments at the cursor keeps the invariant of a running
/// job, transfers nothing and leaves the pool as it was. The cursor ends at
/// the end of the range or at a segment that is not in sync.
pub proof fn lemma_skip_clean_wf(v: BackendView, slot: int, now: i64)
    requires
        v.wf(),
        v.states.current == RebuildState::Running,
        0 <= slot < v.slots.len(),
        v.slots[slot] == TaskState::Idle,
    ensures
        v.skip_clean(slot, now).wf(),
        v.skip_clean(slot, now).states == v.states,
        v.skip_clean(slot, now).slots == v.slots,
        v.skip_clean(slot, now).descriptor == v.descriptor,
        v.skip_clean(slot, now).blocks_transferred == v.blocks_transferred,
        v.skip_clean(slot, now).end_time == v.end_time,
        v.skip_clean(slot, now).next >= v.next,
        v.skip_clean(slot, now).next == v.descriptor.end || !v.descriptor.is_blk_sync(
            v.skip_clean(slot, now).next,
        ),
    decreases v.descriptor.end - v.next,
{
    if v.next < v.descriptor.end {
        lemma_segment_size_bounds(v.descriptor, v.next);
        if v.descriptor.is_blk_sync(v.next) {
            lemma_started_wf(v, slot, now);
            lemma_skip_clean_wf(v.started(slot, now), slot, now);
        }
    }
}

/// One round of the scheduling loop keeps the invariant and moves the state
/// of the job along the table or leaves it.
pub proof fn lemma_polled_wf(v: BackendView, slot: int, now: i64)
    requires
        v.wf(),
        v.settle(now).dispatch_ready() ==> 0 <= slot < v.slots.len() && v.slots[slot]
            == TaskState::Idle,
    ensures
        v.polled(slot, now).wf(),
        legal_step(v.states.current, v.polled(slot, now).states.current),
        v.states.current.is_terminal() ==> v.polled(slot, now) == v,
{
    lemma_settle_wf(v, now);
    let s1 = v.settle(now);
    if s1.dispatch_ready() {
        assert(s1.states == v.states);
        lemma_skip_clean_wf(s1, slot, now);
        let s2 = s1.skip_clean(slot, now);
        if s2.next < s2.descriptor.end {
            lemma_started_wf(s2, slot, now);
        } else {
            lemma_settle_wf(s2, now);
        }
    }
}

/// One round of the scheduling loop keeps the invariant and moves the state
/// of the job along the table or leaves it; in a terminal state it changes
/// nothing.
pub proof fn lemma_poll_wf(v: BackendView, now: i64)
    requires
        v.wf(),
    ensures
        v.poll(now).wf(),
        legal_step(v.states.current, v.poll(now).states.current),
        v.states.current.is_terminal() ==> v.poll(now) == v,
{
    if v.settle(now).dispatch_ready() {
        let k = choose|k: int| 0 <= k < v.slots.len() && #[trigger] v.slots[k] == TaskState::Idle;
        lemma_first_free_exists(v.slots, k);
    }
    lemma_polled_wf(v, first_free(v.slots), now);
}

} // verus!
