//! The copy task: the steps that bring one segment from the source to the
//! destination under the range lock.
//!
//! The task decides; its caller acts. Each call hands out the next action
//! (take the lock, read, write, release the lock, report) and the caller
//! answers with the event that the action ended in.
use vstd::prelude::*;

use crate::rebuild_descriptor::{RebuildDescriptor, RebuildDescriptorView};
use crate::rebuild_error::{IoSide, RebuildError};

verus! {

/// What a copy task reports of one segment.
#[derive(Clone, Copy, Debug, PartialEq, Eq)]
pub struct TaskResult {
    /// First block of the segment.
    pub blk: u64,
    /// Number of blocks of the segment.
    pub len: u64,
    /// Whether the segment was read from the source and written to the
    /// destination.
    pub transferred: bool,
    /// The error that ended the copy, if any.
    pub error: Option<RebuildError>,
}

/// Where a copy task stands.
#[derive(Clone, Copy, Debug, PartialEq, Eq)]
pub enum TaskState {
    /// No segment in hand.
    Idle,
    /// Waiting for the range lock over the segment; `retried` tells that one
    /// attempt has failed already.
    AwaitLock { blk: u64, len: u64, retried: bool },
    /// Lock held, reading the segment from the source.
    Reading { blk: u64, len: u64 },
    /// Lock held, writing the segment to the destination.
    Writing { blk: u64, len: u64 },
    /// Lock held and being released; `result` is reported once it is.
    Unlocking { result: TaskResult },
}

/// What happened to the last action of a task.
#[derive(Clone, Copy, Debug, PartialEq, Eq)]
pub enum TaskEvent {
    /// The range lock was taken.
    LockAcquired,
    /// The range lock could not be taken.
    LockFailed,
    /// The segment was read into the buffer.
    ReadDone,
    /// The read failed with the error number `cause`.
    ReadFailed { cause: i32 },
    /// The buffer was written to the destination.
    WriteDone,
    /// The write failed with the error number `cause`.
    WriteFailed { cause: i32 },
    /// The range lock was released.
    Unlocked,
}

/// What the caller of a task has to do next.
#[derive(Clone, Copy, Debug, PartialEq, Eq)]
pub enum TaskAction {
    /// Take the range lock over `len` blocks from `blk`.
    Lock { blk: u64, len: u64 },
    /// Read `len` blocks from `blk` of the source into the buffer.
    Read { blk: u64, len: u64 },
    /// Write `len` blocks from the buffer to `blk` of the destination.
    Write { blk: u64, len: u64 },
    /// Release the range lock over `len` blocks from `blk`.
    Unlock { blk: u64, len: u64 },
    /// Hand the result to the scheduler; the task is idle again.
    Emit(TaskResult),
    /// The event does not fit the state of the task: nothing to do.
    Ignore,
}

/// A state of a task together with the action that led to it.
pub struct TaskStep {
    /// State after the step.
    pub state: TaskState,
    /// What the caller has to do.
    pub action: TaskAction,
}

/// The result of a segment that needed no copy.
pub open spec fn skipped(blk: u64, len: u64) -> TaskResult {
    TaskResult { blk, len, transferred: false, error: None }
}

/// The result of a segment that was copied.
pub open spec fn copied(blk: u64, len: u64) -> TaskResult {
    TaskResult { blk, len, transferred: true, error: None }
}

/// The result of a segment whose copy ended in `error`.
pub open spec fn failed(blk: u64, len: u64, error: RebuildError) -> TaskResult {
    TaskResult { blk, len, transferred: false, error: Some(error) }
}

impl TaskState {
    /// The range that the task holds locked, as first block and length.
    pub open spec fn locked_range(self) -> Option<(u64, u64)> {
        match self {
            TaskState::Reading { blk, len } => Some((blk, len)),
            TaskState::Writing { blk, len } => Some((blk, len)),
            TaskState::Unlocking { result } => Some((result.blk, result.len)),
            _ => None,
        }
    }

    /// The segment that the task works on, as first block and length.
    pub open spec fn segment(self) -> Option<(u64, u64)> {
        match self {
            TaskState::AwaitLock { blk, len, .. } => Some((blk, len)),
            _ => self.locked_range(),
        }
    }
}

/// The first step of a task on the segment that starts at `blk`.
///
/// An idle task computes the length of the segment. If the segment is in sync
/// (or holds no block) it reports it as skipped without any I/O; otherwise it
/// asks for the range lock. A task that is busy ignores the request.
pub open spec fn task_start(state: TaskState, d: RebuildDescriptorView, blk: u64) -> TaskStep {
    if state != TaskState::Idle {
        TaskStep { state, action: TaskAction::Ignore }
    } else if d.is_blk_sync(blk) || d.segment_size_at(blk) == 0 {
        TaskStep {
            state: TaskState::Idle,
            action: TaskAction::Emit(skipped(blk, d.segment_size_at(blk))),
        }
    } else {
        TaskStep {
            state: TaskState::AwaitLock { blk, len: d.segment_size_at(blk), retried: false },
            action: TaskAction::Lock { blk, len: d.segment_size_at(blk) },
        }
    }
}

/// The step of a task on an event.
///
/// * lock taken: read; lock failed: ask once more, then report
///   `RangeLockFailed`;
/// * read done: write; read failed: release the lock, then report the error
///   of the source;
/// * write done: release the lock, then report the copy; write failed: release
///   the lock, then report the error of the destination;
/// * lock released: report.
///
/// An event that does not fit the state changes nothing.
pub open spec fn task_step(state: TaskState, event: TaskEvent) -> TaskStep {
    match (state, event) {
        (TaskState::AwaitLock { blk, len, .. }, TaskEvent::LockAcquired) => TaskStep {
            state: TaskState::Reading { blk, len },
            action: TaskAction::Read { blk, len },
        },
        (TaskState::AwaitLock { blk, len, retried }, TaskEvent::LockFailed) => if retried {
            TaskStep {
                state: TaskState::Idle,
                action: TaskAction::Emit(
                    failed(blk, len, RebuildError::RangeLockFailed { offset: blk, len }),
                ),
            }
        } else {
            TaskStep {
                state: TaskState::AwaitLock { blk, len, retried: true },
                action: TaskAction::Lock { blk, len },
            }
        },
        (TaskState::Reading { blk, len }, TaskEvent::ReadDone) => TaskStep {
            state: TaskState::Writing { blk, len },
            action: TaskAction::Write { blk, len },
        },
        (TaskState::Reading { blk, len }, TaskEvent::ReadFailed { cause }) => TaskStep {
            state: TaskState::Unlocking {
                result: failed(
                    blk,
                    len,
                    RebuildError::IoError { side: IoSide::Src, offset: blk, len, cause },
                ),
            },
            action: TaskAction::Unlock { blk, len },
        },
        (TaskState::Writing { blk, len }, TaskEvent::WriteDone) => TaskStep {
            state: TaskState::Unlocking { result: copied(blk, len) },
            action: TaskAction::Unlock { blk, len },
        },
        (TaskState::Writing { blk, len }, TaskEvent::WriteFailed { cause }) => TaskStep {
            state: TaskState::Unlocking {
                result: failed(
                    blk,
                    len,
                    RebuildError::IoError { side: IoSide::Dst, offset: blk, len, cause },
                ),
            },
            action: TaskAction::Unlock { blk, len },
        },
        (TaskState::Unlocking { result }, TaskEvent::Unlocked) => TaskStep {
            state: TaskState::Idle,
            action: TaskAction::Emit(result),
        },
        _ => TaskStep { state, action: TaskAction::Ignore },
    }
}

/// One copy task of the pool. It works on one segment at a time.
#[derive(Clone, Copy, Debug)]
pub struct RebuildTask {
    id: usize,
    state: TaskState,
}

impl RebuildTask {
    /// The index of the task in its pool.
    pub closed spec fn spec_id(&self) -> usize {
        self.id
    }

    /// The state of the task.
    pub closed spec fn spec_state(&self) -> TaskState {
        self.state
    }

    /// An idle task with the index `id`.
    pub fn new(id: usize) -> (r: Self)
        ensures
            r.spec_id() == id,
            r.spec_state() == TaskState::Idle,
    {
        RebuildTask { id, state: TaskState::Idle }
    }

    /// The index of the task in its pool.
    pub fn id(&self) -> (r: usize)
        ensures
            r == self.spec_id(),
    {
        self.id
    }

    /// The state of the task.
    pub fn state(&self) -> (r: TaskState)
        ensures
            r == self.spec_state(),
    {
        self.state
    }

    /// Whether the task has no segment in hand.
    pub fn is_idle(&self) -> (r: bool)
        ensures
            r == (self.spec_state() == TaskState::Idle),
    {
        match self.state {
            TaskState::Idle => true,
            _ => false,
        }
    }

    /// Takes the segment that starts at block `blk` and returns the first
    /// action for it.
    pub fn start(&mut self, descriptor: &RebuildDescriptor, blk: u64) -> (r: TaskAction)
        ensures
            final(self).spec_id() == old(self).spec_id(),
            final(self).spec_state() == task_start(old(self).spec_state(), descriptor@, blk).state,
            r == task_start(old(self).spec_state(), descriptor@, blk).action,
    {
        let (state, action) = start_step(self.state, descriptor, blk);
        self.state = state;
        action
    }

    /// Takes the event that the last action ended in and returns the next
    /// action.
    pub fn on_event(&mut self, event: TaskEvent) -> (r: TaskAction)
        ensures
            final(self).spec_id() == old(self).spec_id(),
            final(self).spec_state() == task_step(old(self).spec_state(), event).state,
            r == task_step(old(self).spec_state(), event).action,
    {
        let (state, action) = event_step(self.state, event);
        self.state = state;
        action
    }
}

/// Computes the first step of a task in state `state` on the segment that
/// starts at block `blk`: the state after it and the action to take.
pub fn start_step(state: TaskState, descriptor: &RebuildDescriptor, blk: u64) -> (r: (
    TaskState,
    TaskAction,
))
    ensures
        r.0 == task_start(state, descriptor@, blk).state,
        r.1 == task_start(state, descriptor@, blk).action,
{
    match state {
        TaskState::Idle => {},
        _ => {
            return (state, TaskAction::Ignore);
        },
    }
    let len: u64 = descriptor.get_segment_size_blks(blk);
    if descriptor.is_blk_sync(blk) || len == 0 {
        return (
            TaskState::Idle,
            TaskAction::Emit(TaskResult { blk, len, transferred: false, error: None }),
        );
    }
    (TaskState::AwaitLock { blk, len, retried: false }, TaskAction::Lock { blk, len })
}

/// Computes the step of a task in state `state` on `event`: the state after
/// it and the action to take.
pub fn event_step(state: TaskState, event: TaskEvent) -> (r: (TaskState, TaskAction))
    ensures
        r.0 == task_step(state, event).state,
        r.1 == task_step(state, event).action,
{
    match (state, event) {
        (TaskState::AwaitLock { blk, len, .. }, TaskEvent::LockAcquired) => (
            TaskState::Reading { blk, len },
            TaskAction::Read { blk, len },
        ),
        (TaskState::AwaitLock { blk, len, retried }, TaskEvent::LockFailed) => {
            if retried {
                (
                    TaskState::Idle,
                    TaskAction::Emit(
                        TaskResult {
                            blk,
                            len,
                            transferred: false,
                            error: Some(RebuildError::RangeLockFailed { offset: blk, len }),
                        },
                    ),
                )
            } else {
                (TaskState::AwaitLock { blk, len, retried: true }, TaskAction::Lock { blk, len })
            }
        },
        (TaskState::Reading { blk, len }, TaskEvent::ReadDone) => (
            TaskState::Writing { blk, len },
            TaskAction::Write { blk, len },
        ),
        (TaskState::Reading { blk, len }, TaskEvent::ReadFailed { cause }) => (
            TaskState::Unlocking {
                result: TaskResult {
                    blk,
                    len,
                    transferred: false,
                    error: Some(
                        RebuildError::IoError { side: IoSide::Src, offset: blk, len, cause },
                    ),
                },
            },
            TaskAction::Unlock { blk, len },
        ),
        (TaskState::Writing { blk, len }, TaskEvent::WriteDone) => (
            TaskState::Unlocking {
                result: TaskResult { blk, len, transferred: true, error: None },
            },
            TaskAction::Unlock { blk, len },
        ),
        (TaskState::Writing { blk, len }, TaskEvent::WriteFailed { cause }) => (
            TaskState::Unlocking {
                result: TaskResult {
                    blk,
                    len,
                    transferred: false,
                    error: Some(
                        RebuildError::IoError { side: IoSide::Dst, offset: blk, len, cause },
                    ),
                },
            },
            TaskAction::Unlock { blk, len },
        ),
        (TaskState::Unlocking { result }, TaskEvent::Unlocked) => (
            TaskState::Idle,
            TaskAction::Emit(result),
        ),
        _ => (state, TaskAction::Ignore),
    }
}

/// The states that a task can reach on the segment `[blk, blk + len)`: what
/// it holds in hand, and what it is about to report, is that segment, and a
/// result about to be reported is a copy or an I/O error.
pub open spec fn state_on_segment(state: TaskState, blk: u64, len: u64) -> bool {
    match state {
        TaskState::Idle => true,
        TaskState::Unlocking { result } => {
            &&& result.blk == blk
            &&& result.len == len
            &&& result.transferred == result.error.is_none()
        },
        _ => state.segment() == Some((blk, len)),
    }
}

/// A task that starts on a segment works on that segment, reports a segment
/// in sync as skipped at once, and holds no lock yet.
pub proof fn lemma_start_takes_segment(d: RebuildDescriptorView, blk: u64)
    ensures
        state_on_segment(task_start(TaskState::Idle, d, blk).state, blk, d.segment_size_at(blk)),
        task_start(TaskState::Idle, d, blk).state.locked_range().is_none(),
        d.is_blk_sync(blk) ==> task_start(TaskState::Idle, d, blk).action == TaskAction::Emit(
            skipped(blk, d.segment_size_at(blk)),
        ),
        !d.is_blk_sync(blk) && d.segment_size_at(blk) > 0 ==> task_start(
            TaskState::Idle,
            d,
            blk,
        ).action == (TaskAction::Lock { blk, len: d.segment_size_at(blk) }),
{
}

/// Whatever the event, a task stays on its segment: it locks, reads, writes
/// and unlocks that segment only, and reports on that segment only.
pub proof fn lemma_step_stays_on_segment(state: TaskState, event: TaskEvent, blk: u64, len: u64)
    requires
        state != TaskState::Idle,
        state_on_segment(state, blk, len),
    ensures
        state_on_segment(task_step(state, event).state, blk, len),
        match task_step(state, event).action {
            TaskAction::Lock { blk: b, len: l } => b == blk && l == len,
            TaskAction::Read { blk: b, len: l } => b == blk && l == len,
            TaskAction::Write { blk: b, len: l } => b == blk && l == len,
            TaskAction::Unlock { blk: b, len: l } => b == blk && l == len,
            TaskAction::Emit(r) => r.blk == blk && r.len == len,
            TaskAction::Ignore => task_step(state, event).state == state,
        },
{
}

/// A task that reports holds no lock: the lock is released on every path
/// before the result leaves the task. A lock is held only from the moment it
/// was taken, and a read or a write is asked for only under the lock.
pub proof fn lemma_report_holds_no_lock(state: TaskState, event: TaskEvent)
    ensures
        task_step(state, event).action is Emit ==> task_step(state, event).state
            == TaskState::Idle,
        TaskState::Idle.locked_range().is_none(),
        state.locked_range().is_none() && task_step(state, event).state.locked_range().is_some()
            ==> event == TaskEvent::LockAcquired,
        task_step(state, event).action is Read || task_step(state, event).action is Write
            ==> task_step(state, event).state.locked_range().is_some(),
{
}

/// A segment is reported as transferred only after its write was done, and an
/// idle task ignores every event.
pub proof fn lemma_transfer_needs_write(state: TaskState, event: TaskEvent)
    ensures
        (task_step(state, event).state matches TaskState::Unlocking { result }
            && result.transferred && !(state is Unlocking)) ==> state is Writing && event
            == TaskEvent::WriteDone,
        state == TaskState::Idle ==> task_step(state, event) == (TaskStep {
            state,
            action: TaskAction::Ignore,
        }),
{
}

} // verus!
