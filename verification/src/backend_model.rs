//! The model of the scheduler of a rebuild job: its state as plain values,
//! the steps it takes, and the invariant that every step keeps.
use vstd::prelude::*;

use crate::range::{range_blocks, ranges_disjoint};
use crate::rebuild_descriptor::RebuildDescriptorView;
use crate::rebuild_error::RebuildError;
use crate::rebuild_state::{
    op_outcome,
    reconciled,
    RebuildOperation,
    RebuildState,
    RebuildStates,
};
use crate::rebuild_stats::{elapsed_of, progress_of, throughput_of, RebuildStats, ThroughputWindowView};
use crate::rebuild_task::{task_start, task_step, TaskAction, TaskEvent, TaskResult, TaskState};

verus! {

/// Number of blocks of the segment that a task has in hand.
pub open spec fn seg_len(state: TaskState) -> nat {
    match state.segment() {
        Some((_, len)) => len as nat,
        None => 0,
    }
}

/// Number of blocks that the tasks of a pool have in hand.
pub open spec fn inflight_blocks(slots: Seq<TaskState>) -> nat
    decreases slots.len(),
{
    if slots.len() == 0 {
        0
    } else {
        inflight_blocks(slots.drop_last()) + seg_len(slots.last())
    }
}

/// Number of tasks of a pool that have a segment in hand.
pub open spec fn busy_count(slots: Seq<TaskState>) -> nat
    decreases slots.len(),
{
    if slots.len() == 0 {
        0
    } else {
        busy_count(slots.drop_last()) + if slots.last() == TaskState::Idle {
            0nat
        } else {
            1nat
        }
    }
}

/// Whether the task has block `b` in hand.
pub open spec fn covers(state: TaskState, b: int) -> bool {
    match state.segment() {
        Some((blk, len)) => blk <= b < blk + len,
        None => false,
    }
}

/// Whether some task of the pool has block `b` in hand.
pub open spec fn held(slots: Seq<TaskState>, b: int) -> bool {
    exists|i: int| 0 <= i < slots.len() && covers(#[trigger] slots[i], b)
}

/// Whether `slot` is the first idle task of the pool.
pub open spec fn is_first_free(slots: Seq<TaskState>, slot: int) -> bool {
    &&& 0 <= slot < slots.len()
    &&& slots[slot] == TaskState::Idle
    &&& forall|j: int| 0 <= j < slot ==> #[trigger] slots[j] != TaskState::Idle
}

/// The first idle task of the pool, if it has one.
pub open spec fn first_free(slots: Seq<TaskState>) -> int {
    choose|i: int| is_first_free(slots, i)
}

/// Whether the pool has an idle task.
pub open spec fn has_free(slots: Seq<TaskState>) -> bool {
    exists|i: int| 0 <= i < slots.len() && #[trigger] slots[i] == TaskState::Idle
}

/// What must hold of the task in one slot: its segment starts on a segment
/// boundary of the range, is not empty, is a full segment or the short one at
/// the end of the range, and ends at or before the cursor; a result that waits for the unlock is a copy
/// or an error.
pub open spec fn slot_ok(d: RebuildDescriptorView, next: u64, state: TaskState) -> bool {
    &&& match state.segment() {
        Some((blk, len)) => {
            &&& d.start <= blk
            &&& (blk - d.start) % (d.segment_size_blks as int) == 0
            &&& 0 < len <= d.segment_size_blks
            &&& len == d.segment_size_at(blk)
            &&& blk + len <= next
        },
        None => true,
    }
    &&& match state {
        TaskState::Unlocking { result } => result.transferred == result.error.is_none(),
        _ => true,
    }
}

/// The time at which a job ended: kept once set, set to `now` when the state
/// has become terminal, absent before.
pub open spec fn stamp(end_time: Option<i64>, current: RebuildState, now: i64) -> Option<i64> {
    if current.is_terminal() {
        match end_time {
            Some(t) => Some(t),
            None => Some(now),
        }
    } else {
        None
    }
}

/// The states after a fatal task error.
pub open spec fn failed_states(s: RebuildStates) -> RebuildStates {
    if s.current == RebuildState::Running {
        RebuildStates { current: RebuildState::Failed, pending: None }
    } else {
        s
    }
}

/// What the caller of the scheduler has to do next.
#[derive(Clone, Copy, Debug, PartialEq, Eq)]
pub enum BackendAction {
    /// Hand `action` to the copy task in slot `slot`.
    Task { slot: usize, action: TaskAction },
    /// Nothing to hand out: wait for a command or for an event of a task.
    Wait,
    /// The job has ended in the given state and no task is in flight: leave
    /// the loop.
    Exit(RebuildState),
}

/// The state of the scheduler of a rebuild job.
pub struct BackendView {
    /// The descriptor of the rebuild.
    pub descriptor: RebuildDescriptorView,
    /// Current and pending state of the job.
    pub states: RebuildStates,
    /// The cursor: the first block that no task was given yet.
    pub next: u64,
    /// The pool: the state of the copy task in each slot.
    pub slots: Seq<TaskState>,
    /// Number of blocks copied to the destination.
    pub blocks_transferred: u64,
    /// Number of blocks found clean in the map and skipped.
    pub blocks_skipped: u64,
    /// Number of blocks of segments whose copy ended in an error.
    pub blocks_failed: u64,
    /// Number of segments copied.
    pub segments_done: u64,
    /// Number of segments skipped.
    pub segments_skipped: u64,
    /// The first fatal error of a task.
    pub error: Option<RebuildError>,
    /// Time at which the job reached a terminal state.
    pub end_time: Option<i64>,
    /// The recent transfers, for the windowed throughput.
    pub window: ThroughputWindowView,
    /// The blocks of the segments that a task has reported as copied or as
    /// clean in the map.
    pub synced: Set<int>,
}

impl BackendView {
    /// Whether no copy task has a segment in hand.
    pub open spec fn quiesced(self) -> bool {
        forall|i: int| 0 <= i < self.slots.len() ==> #[trigger] self.slots[i] == TaskState::Idle
    }

    /// Whether the cursor has reached the end of the range.
    pub open spec fn all_dispatched(self) -> bool {
        self.next == self.descriptor.end
    }

    /// The invariant of the scheduler.
    pub open spec fn wf(self) -> bool {
        let d = self.descriptor;
        &&& d.wf()
        &&& self.states.wf()
        &&& d.start <= self.next <= d.end
        &&& (self.next == d.end || (self.next - d.start) % (d.segment_size_blks as int) == 0)
        &&& crate::SEGMENT_TASKS_MIN <= self.slots.len() <= crate::SEGMENT_TASKS_MAX
        &&& forall|i: int| 0 <= i < self.slots.len() ==> slot_ok(d, self.next, #[trigger] self.slots[i])
        &&& forall|i: int, j: int|
            0 <= i < self.slots.len() && 0 <= j < self.slots.len() && i != j ==> match (
                (#[trigger] self.slots[i]).segment(),
                (#[trigger] self.slots[j]).segment(),
            ) {
                (Some((b1, l1)), Some((b2, l2))) => ranges_disjoint(
                    b1 as int,
                    b1 + l1,
                    b2 as int,
                    b2 + l2,
                ),
                _ => true,
            }
        &&& self.blocks_transferred + self.blocks_skipped + self.blocks_failed + inflight_blocks(
            self.slots,
        ) == self.next - d.start
        &&& self.segments_done <= self.blocks_transferred
        &&& self.segments_skipped <= self.blocks_skipped
        &&& (!self.quiesced() ==> self.states.current == RebuildState::Running
            || self.states.current == RebuildState::Failed)
        &&& (self.states.current == RebuildState::Init ==> self.next == d.start)
        &&& (self.states.current == RebuildState::Completed ==> self.next == d.end
            && self.quiesced())
        &&& (self.states.current != RebuildState::Failed ==> self.blocks_failed == 0
            && self.error.is_none())
        &&& self.end_time.is_some() == self.states.current.is_terminal()
        &&& (forall|b: int| #[trigger] self.synced.contains(b) ==> d.start <= b < self.next)
        &&& (self.states.current != RebuildState::Failed ==> forall|b: int|
            d.start <= b < self.next ==> #[trigger] self.synced.contains(b) || held(self.slots, b))
        &&& (d.rebuild_map.is_some() ==> forall|b: int|
            #[trigger] self.synced.contains(b) ==> d.is_blk_sync(b as u64))
    }

    /// The scheduler of a new job over `descriptor` with `tasks` copy tasks
    /// and a throughput window of `window_secs` seconds.
    pub open spec fn init(descriptor: RebuildDescriptorView, tasks: nat, window_secs: u64)
        -> BackendView {
        BackendView {
            descriptor,
            states: RebuildStates { current: RebuildState::Init, pending: None },
            next: descriptor.start,
            slots: Seq::new(tasks, |i: int| TaskState::Idle),
            blocks_transferred: 0,
            blocks_skipped: 0,
            blocks_failed: 0,
            segments_done: 0,
            segments_skipped: 0,
            error: None,
            end_time: None,
            window: ThroughputWindowView { window_secs, samples: Seq::empty() },
            synced: Set::empty(),
        }
    }

    /// The scheduler after the command `op` at the time `now`: the states move
    /// as the table of the commands says, and nothing else changes but the
    /// end time.
    pub open spec fn command(self, op: RebuildOperation, now: i64) -> BackendView {
        let o = op_outcome(self.states, op, self.quiesced());
        BackendView {
            states: RebuildStates { current: o.current, pending: o.pending },
            end_time: stamp(self.end_time, o.current, now),
            ..self
        }
    }

    /// The scheduler after its states have been reconciled with the tasks: a
    /// pending state is entered once no task is in flight, and a running job
    /// with nothing left to hand out and nothing in flight is completed.
    pub open spec fn settle(self, now: i64) -> BackendView {
        let st = reconciled(self.states, self.quiesced(), self.all_dispatched());
        BackendView { states: st, end_time: stamp(self.end_time, st.current, now), ..self }
    }

    /// The scheduler after the result of a task has been folded in.
    ///
    /// An error fails a running job and counts the blocks as failed; the
    /// first error is kept. A copy counts the blocks as transferred, marks the
    /// segment clean in the map and enters the throughput window. A skip
    /// counts the blocks as skipped.
    pub open spec fn folded(self, result: TaskResult, now: i64) -> BackendView {
        match result.error {
            Some(e) => BackendView {
                blocks_failed: (self.blocks_failed + result.len) as u64,
                states: failed_states(self.states),
                error: match self.error {
                    Some(first) => Some(first),
                    None => Some(e),
                },
                end_time: stamp(self.end_time, failed_states(self.states).current, now),
                ..self
            },
            None => if result.transferred {
                BackendView {
                    blocks_transferred: (self.blocks_transferred + result.len) as u64,
                    segments_done: (self.segments_done + 1) as u64,
                    descriptor: self.descriptor.blk_synced(result.blk),
                    window: self.window.record(now, result.len),
                    synced: self.synced.union(
                        range_blocks(result.blk as int, result.blk + result.len),
                    ),
                    ..self
                }
            } else {
                BackendView {
                    blocks_skipped: (self.blocks_skipped + result.len) as u64,
                    segments_skipped: (self.segments_skipped + 1) as u64,
                    synced: self.synced.union(
                        range_blocks(result.blk as int, result.blk + result.len),
                    ),
                    ..self
                }
            },
        }
    }

    /// Whether a segment can be handed out: the job is running with nothing
    /// pending, a task is idle, and the cursor has not reached the end.
    pub open spec fn dispatch_ready(self) -> bool {
        &&& self.states.current == RebuildState::Running
        &&& self.states.pending.is_none()
        &&& has_free(self.slots)
        &&& self.next < self.descriptor.end
    }

    /// The scheduler after the task in `slot` was started on the segment at
    /// the cursor: the cursor moves past the segment; a clean segment is
    /// folded in as skipped at once, a dirty one is in the hand of the task.
    pub open spec fn started(self, slot: int, now: i64) -> BackendView {
        let step = task_start(TaskState::Idle, self.descriptor, self.next);
        let moved = BackendView {
            next: (self.next + self.descriptor.segment_size_at(self.next)) as u64,
            slots: self.slots.update(slot, step.state),
            ..self
        };
        match step.action {
            TaskAction::Emit(result) => moved.folded(result, now),
            _ => moved,
        }
    }

    /// The scheduler after every clean segment at the cursor has been started
    /// on the task in `slot` and folded in as skipped: the cursor stands at
    /// the first dirty segment, or at the end of the range.
    pub open spec fn skip_clean(self, slot: int, now: i64) -> BackendView
        decreases self.descriptor.end - self.next,
    {
        if self.next < self.descriptor.end && self.descriptor.is_blk_sync(self.next)
            && self.descriptor.segment_size_at(self.next) > 0 {
            self.started(slot, now).skip_clean(slot, now)
        } else {
            self
        }
    }

    /// The scheduler after the task in `slot` has taken `event`: the task
    /// steps, and a result that it reports is folded in. An event for a slot
    /// that the pool does not have changes nothing.
    pub open spec fn stepped(self, slot: int, event: TaskEvent, now: i64) -> BackendView {
        if 0 <= slot < self.slots.len() {
            let step = task_step(self.slots[slot], event);
            let moved = BackendView { slots: self.slots.update(slot, step.state), ..self };
            match step.action {
                TaskAction::Emit(result) => moved.folded(result, now),
                _ => moved,
            }
        } else {
            self
        }
    }

    /// The action that the task in `slot` gets in answer to `event`.
    pub open spec fn step_action(self, slot: int, event: TaskEvent) -> TaskAction {
        if 0 <= slot < self.slots.len() {
            task_step(self.slots[slot], event).action
        } else {
            TaskAction::Ignore
        }
    }

    /// The scheduler after one round of the scheduling loop at the time
    /// `now`, where `slot` is the first idle task if there is one.
    ///
    /// The states are reconciled. If a segment can be handed out, the clean
    /// segments at the cursor are skipped; the first dirty segment goes to the
    /// task in `slot`; if none is left, the states are reconciled once more.
    pub open spec fn polled(self, slot: int, now: i64) -> BackendView {
        let s1 = self.settle(now);
        if s1.dispatch_ready() {
            let s2 = s1.skip_clean(slot, now);
            if s2.next < s2.descriptor.end {
                s2.started(slot, now)
            } else {
                s2.settle(now)
            }
        } else {
            s1
        }
    }

    /// The action that one round of the scheduling loop hands out.
    pub open spec fn poll_action(self, slot: int, now: i64) -> BackendAction {
        let s1 = self.settle(now);
        let s3 = self.polled(slot, now);
        if s1.dispatch_ready() && s1.skip_clean(slot, now).next < s1.descriptor.end {
            BackendAction::Task {
                slot: slot as usize,
                action: task_start(
                    TaskState::Idle,
                    s1.skip_clean(slot, now).descriptor,
                    s1.skip_clean(slot, now).next,
                ).action,
            }
        } else if s3.states.current.is_terminal() && s3.quiesced() {
            BackendAction::Exit(s3.states.current)
        } else {
            BackendAction::Wait
        }
    }

    /// The scheduler after one round of the scheduling loop at the time
    /// `now`: a segment that can be handed out goes to the first idle task.
    pub open spec fn poll(self, now: i64) -> BackendView {
        self.polled(first_free(self.slots), now)
    }

    /// The action that one round of the scheduling loop at the time `now`
    /// hands out.
    pub open spec fn next_action(self, now: i64) -> BackendAction {
        self.poll_action(first_free(self.slots), now)
    }

    /// Number of blocks of the rebuild.
    pub open spec fn blocks_total(self) -> int {
        self.descriptor.end - self.descriptor.start
    }

    /// The statistics of the job at the time `now`.
    ///
    /// Progress counts the blocks copied and the blocks skipped. The average
    /// throughput is taken from the start of the job to its end, or to `now`
    /// while it has not ended.
    pub open spec fn stats(self, now: i64) -> RebuildStats {
        let done = self.blocks_transferred + self.blocks_skipped;
        RebuildStats {
            start: self.descriptor.start,
            end: self.descriptor.end,
            state: self.states.current,
            blocks_total: self.blocks_total() as u64,
            blocks_transferred: self.blocks_transferred,
            blocks_skipped: self.blocks_skipped,
            blocks_remaining: (self.blocks_total() - done) as u64,
            progress: progress_of(done, self.blocks_total()) as u64,
            segments_done: self.segments_done,
            segments_skipped: self.segments_skipped,
            block_size: self.descriptor.block_size,
            tasks_total: self.slots.len() as u64,
            tasks_active: busy_count(self.slots) as u64,
            start_time: self.descriptor.start_time,
            end_time: self.end_time,
            throughput_avg: throughput_of(
                self.blocks_transferred as int,
                self.descriptor.block_size as int,
                elapsed_of(
                    self.descriptor.start_time as int,
                    match self.end_time {
                        Some(t) => t as int,
                        None => now as int,
                    },
                ),
            ) as u64,
            throughput_window: self.window.throughput(now, self.descriptor.block_size) as u64,
        }
    }
}

} // verus!
