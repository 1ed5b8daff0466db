//! The scheduler of a rebuild job: it owns the state machine, the pool of
//! copy tasks, the segment cursor and the statistics.
//!
//! The scheduler decides; its caller acts. The caller runs the loop: it asks
//! for the next action, hands task actions to the copy tasks, and reports
//! commands and task events back as they arrive.
use vstd::prelude::*;

use crate::backend_model::{
    busy_count,
    first_free,
    has_free,
    is_first_free,
    stamp,
    BackendAction,
    BackendView,
};
use crate::backend_proofs::{
    lemma_command_wf,
    lemma_first_free_unique,
    lemma_inflight_update,
    lemma_init_wf,
    lemma_settle_wf,
    lemma_skip_clean_wf,
    lemma_started_wf,
    lemma_stepped_wf,
};
use crate::range::range_blocks;
use crate::rebuild_descriptor::{lemma_segment_size_bounds, RebuildDescriptor};
use crate::rebuild_error::RebuildError;
use crate::rebuild_options::RebuildOptions;
use crate::rebuild_state::{
    legal_step,
    op_outcome,
    RebuildOperation,
    RebuildState,
    RebuildStates,
};
use crate::rebuild_stats::{
    elapsed_secs,
    progress_percent,
    throughput,
    HistoryRecord,
    RebuildStats,
    ThroughputWindow,
};
use crate::rebuild_task::{
    event_step,
    start_step,
    TaskAction,
    TaskEvent,
    TaskResult,
    TaskState,
};

verus! {

/// The scheduler of one rebuild job.
pub struct RebuildJobBackend {
    descriptor: RebuildDescriptor,
    states: RebuildStates,
    next: u64,
    slots: Vec<TaskState>,
    blocks_transferred: u64,
    blocks_skipped: u64,
    blocks_failed: u64,
    segments_done: u64,
    segments_skipped: u64,
    error: Option<RebuildError>,
    end_time: Option<i64>,
    window: ThroughputWindow,
    synced: Ghost<Set<int>>,
}

impl View for RebuildJobBackend {
    type V = BackendView;

    closed spec fn view(&self) -> BackendView {
        BackendView {
            descriptor: self.descriptor@,
            states: self.states,
            next: self.next,
            slots: self.slots@,
            blocks_transferred: self.blocks_transferred,
            blocks_skipped: self.blocks_skipped,
            blocks_failed: self.blocks_failed,
            segments_done: self.segments_done,
            segments_skipped: self.segments_skipped,
            error: self.error,
            end_time: self.end_time,
            window: self.window@,
            synced: self.synced@,
        }
    }
}

impl RebuildJobBackend {
    /// The invariant of the scheduler.
    pub open spec fn wf(&self) -> bool {
        self@.wf()
    }

    /// The scheduler of a new job over `descriptor`, with the number of copy
    /// tasks and the throughput window of `options`. The job is in `Init`,
    /// the cursor at the start of the range, every task idle.
    pub fn new(descriptor: RebuildDescriptor, options: &RebuildOptions) -> (r: Self)
        requires
            descriptor@.wf(),
        ensures
            r@ == BackendView::init(
                descriptor@,
                options@.segment_tasks as nat,
                options@.throughput_window_secs,
            ),
            r.wf(),
    {
        let tasks: usize = options.segment_tasks();
        let mut slots: Vec<TaskState> = Vec::new();
        let mut i: usize = 0;
        while i < tasks
            invariant
                i <= tasks,
                slots@.len() == i,
                forall|j: int| 0 <= j < i ==> #[trigger] slots@[j] == TaskState::Idle,
            decreases tasks - i,
        {
            slots.push(TaskState::Idle);
            i += 1;
        }
        let next: u64 = descriptor.range().start;
        let window = ThroughputWindow::new(options.throughput_window_secs());
        let r = RebuildJobBackend {
            descriptor,
            states: RebuildStates::new(),
            next,
            slots,
            blocks_transferred: 0,
            blocks_skipped: 0,
            blocks_failed: 0,
            segments_done: 0,
            segments_skipped: 0,
            error: None,
            end_time: None,
            window,
            synced: Ghost(Set::empty()),
        };
        proof {
            let init = BackendView::init(
                descriptor@,
                options@.segment_tasks as nat,
                options@.throughput_window_secs,
            );
            lemma_init_wf(
                descriptor@,
                options@.segment_tasks as nat,
                options@.throughput_window_secs,
            );
            assert(r@.slots =~= init.slots);
        }
        r
    }

    /// The descriptor of the rebuild.
    pub fn descriptor(&self) -> (r: &RebuildDescriptor)
        ensures
            r@ == self@.descriptor,
    {
        &self.descriptor
    }

    /// Current state of the job.
    pub fn state(&self) -> (r: RebuildState)
        ensures
            r == self@.states.current,
    {
        self.states.current
    }

    /// The state that the job enters once its tasks have finished, if a pause
    /// or a stop is waiting for them.
    pub fn pending_state(&self) -> (r: Option<RebuildState>)
        ensures
            r == self@.states.pending,
    {
        self.states.pending
    }

    /// The cursor: the first block that no task was given yet.
    pub fn next_blk(&self) -> (r: u64)
        ensures
            r == self@.next,
    {
        self.next
    }

    /// The first fatal error of a task, if there was one.
    pub fn error(&self) -> (r: Option<RebuildError>)
        ensures
            r == self@.error,
    {
        self.error
    }

    /// The time at which the job reached a terminal state.
    pub fn end_time(&self) -> (r: Option<i64>)
        ensures
            r == self@.end_time,
    {
        self.end_time
    }

    /// Number of copy tasks of the job.
    pub fn tasks_total(&self) -> (r: usize)
        ensures
            r == self@.slots.len(),
    {
        self.slots.len()
    }

    /// The state of the copy task in `slot`, if the pool has that slot.
    pub fn task_state(&self, slot: usize) -> (r: Option<TaskState>)
        ensures
            r == if slot < self@.slots.len() {
                Some(self@.slots[slot as int])
            } else {
                None
            },
    {
        if slot < self.slots.len() {
            Some(self.slots[slot])
        } else {
            None
        }
    }

    /// Whether the task is idle.
    fn idle(state: &TaskState) -> (r: bool)
        ensures
            r == (*state == TaskState::Idle),
    {
        match state {
            TaskState::Idle => true,
            _ => false,
        }
    }

    /// Whether no copy task has a segment in hand.
    pub fn is_quiesced(&self) -> (r: bool)
        ensures
            r == self@.quiesced(),
    {
        let mut i: usize = 0;
        while i < self.slots.len()
            invariant
                i <= self.slots@.len(),
                forall|j: int| 0 <= j < i ==> #[trigger] self.slots@[j] == TaskState::Idle,
            decreases self.slots@.len() - i,
        {
            if !Self::idle(&self.slots[i]) {
                assert(self@.slots[i as int] != TaskState::Idle);
                return false;
            }
            i += 1;
        }
        true
    }

    /// Number of copy tasks that have a segment in hand.
    pub fn tasks_active(&self) -> (r: usize)
        ensures
            r == busy_count(self@.slots),
    {
        let mut count: usize = 0;
        let mut i: usize = 0;
        while i < self.slots.len()
            invariant
                i <= self.slots@.len(),
                count <= i,
                count == busy_count(self.slots@.subrange(0, i as int)),
            decreases self.slots@.len() - i,
        {
            assert(self.slots@.subrange(0, i + 1).drop_last() =~= self.slots@.subrange(
                0,
                i as int,
            ));
            if !Self::idle(&self.slots[i]) {
                count += 1;
            }
            i += 1;
        }
        assert(self.slots@.subrange(0, i as int) =~= self.slots@);
        count
    }

    /// The first idle task of the pool.
    fn free_slot(&self) -> (r: Option<usize>)
        ensures
            match r {
                Some(i) => is_first_free(self@.slots, i as int),
                None => !has_free(self@.slots),
            },
    {
        let mut i: usize = 0;
        while i < self.slots.len()
            invariant
                i <= self.slots@.len(),
                forall|j: int| 0 <= j < i ==> #[trigger] self.slots@[j] != TaskState::Idle,
            decreases self.slots@.len() - i,
        {
            if Self::idle(&self.slots[i]) {
                return Some(i);
            }
            i += 1;
        }
        None
    }

    /// Sets the end time when the job has become terminal.
    fn stamp_end(&mut self, now: i64)
        ensures
            final(self)@ == (BackendView {
                end_time: stamp(old(self)@.end_time, old(self)@.states.current, now),
                ..old(self)@
            }),
    {
        if self.states.current.done() {
            if self.end_time.is_none() {
                self.end_time = Some(now);
            }
        } else {
            self.end_time = None;
        }
    }

    /// Reconciles the states with the tasks.
    fn settle(&mut self, now: i64)
        requires
            old(self)@.wf(),
        ensures
            final(self)@ == old(self)@.settle(now),
            final(self)@.wf(),
    {
        let quiesced = self.is_quiesced();
        let all_dispatched = self.next == self.descriptor.range().end;
        self.states.reconcile(quiesced, all_dispatched);
        self.stamp_end(now);
        proof {
            lemma_settle_wf(old(self)@, now);
        }
    }

    /// Folds in the result of a task.
    fn fold(&mut self, result: TaskResult, now: i64)
        requires
            old(self)@.states.wf(),
            old(self)@.blocks_transferred + old(self)@.blocks_skipped + old(self)@.blocks_failed
                + result.len <= u64::MAX,
            old(self)@.segments_done <= old(self)@.blocks_transferred,
            old(self)@.segments_skipped <= old(self)@.blocks_skipped,
            result.len > 0,
        ensures
            final(self)@ == old(self)@.folded(result, now),
    {
        match result.error {
            Some(e) => {
                self.blocks_failed = self.blocks_failed + result.len;
                self.states.task_failed();
                if self.error.is_none() {
                    self.error = Some(e);
                }
                self.stamp_end(now);
            },
            None => {
                if result.transferred {
                    self.blocks_transferred = self.blocks_transferred + result.len;
                    self.segments_done = self.segments_done + 1;
                    self.descriptor.blk_synced(result.blk);
                    self.window.record(now, result.len);
                } else {
                    self.blocks_skipped = self.blocks_skipped + result.len;
                    self.segments_skipped = self.segments_skipped + 1;
                }
                self.synced = Ghost(
                    self.synced@.union(range_blocks(result.blk as int, result.blk + result.len)),
                );
            },
        }
    }

    /// Applies the command `op` at the time `now`.
    ///
    /// Returns the state of the job after the command. A command that does
    /// not fit the state is refused with `InvalidStateTransition` and changes
    /// nothing. A pause or a stop of a job with tasks in flight is entered
    /// once they have finished.
    pub fn command(&mut self, op: RebuildOperation, now: i64) -> (r: Result<
        RebuildState,
        RebuildError,
    >)
        requires
            old(self).wf(),
        ensures
            final(self).wf(),
            final(self)@ == old(self)@.command(op, now),
            op_outcome(old(self)@.states, op, old(self)@.quiesced()).accepted ==> r == Ok::<
                RebuildState,
                RebuildError,
            >(final(self)@.states.current),
            !op_outcome(old(self)@.states, op, old(self)@.quiesced()).accepted ==> final(self)@
                == old(self)@ && r == Err::<RebuildState, RebuildError>(
                RebuildError::InvalidStateTransition {
                    operation: op,
                    state: old(self)@.states.current,
                },
            ),
            legal_step(old(self)@.states.current, final(self)@.states.current),
            old(self)@.states.current.is_terminal() ==> final(self)@ == old(self)@,
    {
        let quiesced = self.is_quiesced();
        let r = self.states.exec_op(op, quiesced);
        self.stamp_end(now);
        proof {
            lemma_command_wf(old(self)@, op, now);
        }
        r
    }

    /// Takes the event `event` of the copy task in `slot` at the time `now`
    /// and returns the next action for that task.
    ///
    /// A result that the task reports is folded into the statistics, the map
    /// and the state of the job; an error fails a running job. An event for a
    /// slot that the pool does not have, or that does not fit the state of
    /// the task, is answered with `Ignore` and changes nothing.
    pub fn task_event(&mut self, slot: usize, event: TaskEvent, now: i64) -> (r: TaskAction)
        requires
            old(self).wf(),
        ensures
            final(self).wf(),
            final(self)@ == old(self)@.stepped(slot as int, event, now),
            r == old(self)@.step_action(slot as int, event),
            legal_step(old(self)@.states.current, final(self)@.states.current),
            old(self)@.states.current.is_terminal() ==> final(self)@.states == old(self)@.states,
    {
        proof {
            lemma_stepped_wf(self@, slot as int, event, now);
        }
        if slot >= self.slots.len() {
            return TaskAction::Ignore;
        }
        let (state, action) = event_step(self.slots[slot], event);
        proof {
            lemma_inflight_update(self@.slots, slot as int, state);
            assert(crate::backend_model::slot_ok(
                self@.descriptor,
                self@.next,
                self@.slots[slot as int],
            ));
        }
        self.slots.set(slot, state);
        match action {
            TaskAction::Emit(result) => {
                self.fold(result, now);
            },
            _ => {},
        }
        action
    }

    /// One round of the scheduling loop at the time `now`.
    ///
    /// The states are reconciled with the tasks first. Then, if the job is
    /// running with nothing pending and a task is idle, the segments at the
    /// cursor that the map holds clean are counted as skipped, and the first
    /// one that is not goes to the first idle task: the answer is the action
    /// for that task. If no segment is handed out, the answer is `Exit` when
    /// the job has ended and no task is in flight, and `Wait` otherwise.
    pub fn next_action(&mut self, now: i64) -> (r: BackendAction)
        requires
            old(self).wf(),
        ensures
            final(self).wf(),
            final(self)@ == old(self)@.poll(now),
            r == old(self)@.next_action(now),
            legal_step(old(self)@.states.current, final(self)@.states.current),
            old(self)@.states.current.is_terminal() ==> final(self)@ == old(self)@,
    {
        proof {
            crate::backend_proofs::lemma_poll_wf(self@, now);
        }
        self.settle(now);
        let ghost s1 = self@;
        let end: u64 = self.descriptor.range().end;
        if self.states.current.running() && self.states.pending.is_none() && self.next < end {
            match self.free_slot() {
                Some(slot) => {
                    proof {
                        lemma_first_free_unique(s1.slots, slot as int);
                        assert(s1.dispatch_ready());
                        lemma_skip_clean_wf(s1, slot as int, now);
                    }
                    while self.next < end
                        invariant
                            self@.wf(),
                            s1.wf(),
                            s1 == old(self)@.settle(now),
                            s1.dispatch_ready(),
                            first_free(old(self)@.slots) == slot,
                            end == s1.descriptor.end,
                            self@.descriptor == s1.descriptor,
                            self@.states == s1.states,
                            self@.slots == s1.slots,
                            self@.states.current == RebuildState::Running,
                            0 <= slot < self@.slots.len(),
                            self@.slots[slot as int] == TaskState::Idle,
                            self@.skip_clean(slot as int, now) == s1.skip_clean(slot as int, now),
                        decreases end - self.next,
                    {
                        let ghost cur = self@;
                        let blk: u64 = self.next;
                        let len: u64 = self.descriptor.get_segment_size_blks(blk);
                        let (state, action) = start_step(TaskState::Idle, &self.descriptor, blk);
                        proof {
                            lemma_segment_size_bounds(cur.descriptor, blk);
                            lemma_started_wf(cur, slot as int, now);
                            lemma_inflight_update(cur.slots, slot as int, state);
                        }
                        self.next = blk + len;
                        match action {
                            TaskAction::Emit(result) => {
                                assert(cur.slots.update(slot as int, state) =~= cur.slots);
                                self.fold(result, now);
                                assert(self@ == cur.started(slot as int, now));
                            },
                            _ => {
                                self.slots.set(slot, state);
                                assert(self@ == cur.started(slot as int, now));
                                assert(cur.skip_clean(slot as int, now) == cur);
                                return BackendAction::Task { slot, action };
                            },
                        }
                    }
                    self.settle(now);
                },
                None => {},
            }
        }
        if self.states.current.done() && self.is_quiesced() {
            BackendAction::Exit(self.states.current)
        } else {
            BackendAction::Wait
        }
    }

    /// A snapshot of the statistics of the job at the time `now`.
    pub fn stats(&self, now: i64) -> (r: RebuildStats)
        requires
            self.wf(),
        ensures
            r == self@.stats(now),
    {
        let range = self.descriptor.range();
        let total: u64 = range.end - range.start;
        let done: u64 = self.blocks_transferred + self.blocks_skipped;
        let block_size: u64 = self.descriptor.block_size();
        let start_time: i64 = self.descriptor.start_time();
        let until: i64 = match self.end_time {
            Some(t) => t,
            None => now,
        };
        RebuildStats {
            start: range.start,
            end: range.end,
            state: self.states.current,
            blocks_total: total,
            blocks_transferred: self.blocks_transferred,
            blocks_skipped: self.blocks_skipped,
            blocks_remaining: total - done,
            progress: progress_percent(done, total),
            segments_done: self.segments_done,
            segments_skipped: self.segments_skipped,
            block_size,
            tasks_total: self.slots.len() as u64,
            tasks_active: self.tasks_active() as u64,
            start_time,
            end_time: self.end_time,
            throughput_avg: throughput(
                self.blocks_transferred as u128,
                block_size,
                elapsed_secs(start_time, until),
            ),
            throughput_window: self.window.throughput(now, block_size),
        }
    }

    /// The record of the job for the history, once it has ended.
    pub fn history_record(&self) -> (r: Option<HistoryRecord>)
        requires
            self.wf(),
        ensures
            r.is_some() == self@.states.current.is_terminal(),
            match r {
                Some(rec) => {
                    &&& rec.src_uri@ == self@.descriptor.src_uri
                    &&& rec.dst_uri@ == self@.descriptor.dst_uri
                    &&& rec.start == self@.descriptor.start
                    &&& rec.end == self@.descriptor.end
                    &&& rec.start_time == self@.descriptor.start_time
                    &&& Some(rec.end_time) == self@.end_time
                    &&& rec.final_state == self@.states.current
                    &&& rec.final_stats == self@.stats(rec.end_time)
                    &&& rec.error == self@.error
                },
                None => true,
            },
    {
        match self.end_time {
            Some(end_time) => {
                let range = self.descriptor.range();
                Some(
                    HistoryRecord {
                        src_uri: self.descriptor.src_uri().clone(),
                        dst_uri: self.descriptor.dst_uri().clone(),
                        start: range.start,
                        end: range.end,
                        start_time: self.descriptor.start_time(),
                        end_time,
                        final_state: self.states.current,
                        final_stats: self.stats(end_time),
                        error: self.error,
                    },
                )
            },
            None => None,
        }
    }
}

} // verus!
