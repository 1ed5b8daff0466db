//! The rebuild job: the handle through which the rest of the system builds,
//! commands and observes one rebuild.
use vstd::prelude::*;

use crate::backend_model::{BackendAction, BackendView};
use crate::clock::utc_now_secs;
use crate::rebuild_descriptor::{geometry_ok, DeviceInfo, RebuildDescriptor, RebuildDescriptorView};
use crate::rebuild_error::{IoSide, RebuildError};
use crate::rebuild_job_backend::RebuildJobBackend;
use crate::rebuild_map::{map_view, RebuildMap, RebuildMapView};
use crate::rebuild_options::{RebuildOptions, RebuildOptionsView};
use crate::rebuild_state::{legal_step, op_outcome, RebuildOperation, RebuildState};
use crate::rebuild_stats::{HistoryRecord, RebuildStats};
use crate::rebuild_task::{TaskAction, TaskEvent};

verus! {

/// What opening a child of the nexus ended in.
#[derive(Clone, Copy, Debug, PartialEq, Eq)]
pub enum DeviceOpen {
    /// The device was opened and an I/O handle could be had.
    Opened(DeviceInfo),
    /// The URI did not resolve to a device.
    NoSuchDevice,
    /// The device was found, but no I/O handle could be had for it.
    NoHandle,
}

/// The error of one child that could not be opened.
pub open spec fn open_error_of(open: DeviceOpen, side: IoSide) -> Option<RebuildError> {
    match open {
        DeviceOpen::Opened(_) => None,
        DeviceOpen::NoSuchDevice => Some(RebuildError::NoSuchDevice { side }),
        DeviceOpen::NoHandle => Some(RebuildError::NoBdevHandle { side }),
    }
}

/// The error of the children that could not be opened: that of the source
/// first.
pub open spec fn open_error(src: DeviceOpen, dst: DeviceOpen) -> Option<RebuildError> {
    match open_error_of(src, IoSide::Src) {
        Some(e) => Some(e),
        None => open_error_of(dst, IoSide::Dst),
    }
}

/// What is known of a device that was opened.
pub open spec fn info_of(open: DeviceOpen) -> DeviceInfo {
    match open {
        DeviceOpen::Opened(info) => info,
        _ => DeviceInfo { block_size: 0, num_blocks: 0 },
    }
}

/// What a rebuild job holds.
pub struct RebuildJobView {
    /// The nexus that the job belongs to.
    pub nexus_uuid: Seq<char>,
    /// The scheduler of the job.
    pub backend: BackendView,
}

/// What the caller asks for when it builds a job.
pub struct JobRequest {
    /// The nexus that the job belongs to.
    pub nexus_uuid: Seq<char>,
    /// URI of the healthy child to rebuild from.
    pub src_uri: Seq<char>,
    /// URI of the out of sync child to rebuild.
    pub dst_uri: Seq<char>,
    /// What opening the source ended in.
    pub src: DeviceOpen,
    /// What opening the destination ended in.
    pub dst: DeviceOpen,
    /// First block of the rebuild.
    pub start: u64,
    /// The block after the last block of the rebuild.
    pub end: u64,
    /// The rebuild map, if the rebuild is a partial one.
    pub rebuild_map: Option<RebuildMapView>,
    /// The options of the job.
    pub options: RebuildOptionsView,
}

impl JobRequest {
    /// Whether the request can be met: both children were opened and the
    /// geometry fits.
    pub open spec fn acceptable(self) -> bool {
        &&& open_error(self.src, self.dst).is_none()
        &&& geometry_ok(
            info_of(self.src),
            info_of(self.dst),
            self.start,
            self.end,
            self.options.segment_size_bytes,
            self.rebuild_map,
        )
    }

    /// The error of a request that cannot be met: that of a child that could
    /// not be opened, or `BadRange`.
    pub open spec fn error(self) -> RebuildError {
        match open_error(self.src, self.dst) {
            Some(e) => e,
            None => RebuildError::BadRange,
        }
    }

    /// The job that meets the request when it is built at the time
    /// `start_time`: in its initial state, with every task idle.
    pub open spec fn job(self, start_time: i64) -> RebuildJobView {
        RebuildJobView {
            nexus_uuid: self.nexus_uuid,
            backend: BackendView::init(
                RebuildDescriptorView {
                    block_size: info_of(self.src).block_size,
                    start: self.start,
                    end: self.end,
                    segment_size_blks: (self.options.segment_size_bytes / info_of(
                        self.src,
                    ).block_size) as u64,
                    src_uri: self.src_uri,
                    dst_uri: self.dst_uri,
                    start_time,
                    rebuild_map: self.rebuild_map,
                },
                self.options.segment_tasks as nat,
                self.options.throughput_window_secs,
            ),
        }
    }

    /// Whether `r` is what building the job at the time `start_time` gives.
    pub open spec fn built(self, r: Result<RebuildJob, RebuildError>, start_time: i64) -> bool {
        match r {
            Ok(job) => self.acceptable() && job@ == self.job(start_time) && job.wf(),
            Err(e) => !self.acceptable() && e == self.error(),
        }
    }
}

/// A rebuild job: one rebuild of a destination child from a source child.
pub struct RebuildJob {
    nexus_uuid: String,
    backend: RebuildJobBackend,
}

impl View for RebuildJob {
    type V = RebuildJobView;

    closed spec fn view(&self) -> RebuildJobView {
        RebuildJobView { nexus_uuid: self.nexus_uuid@, backend: self.backend@ }
    }
}

impl RebuildJob {
    /// The invariant of the job.
    pub open spec fn wf(&self) -> bool {
        self@.backend.wf()
    }

    /// Builds a rebuild job at the time `start_time`.
    ///
    /// `src` and `dst` say what opening the two children ended in. A child
    /// that could not be opened gives `NoSuchDevice` or `NoBdevHandle`, the
    /// source first; a geometry that does not fit gives `BadRange`.
    pub fn new_at(
        nexus_uuid: String,
        src_uri: String,
        dst_uri: String,
        src: DeviceOpen,
        dst: DeviceOpen,
        range: std::ops::Range<u64>,
        rebuild_map: Option<RebuildMap>,
        options: &RebuildOptions,
        start_time: i64,
    ) -> (r: Result<Self, RebuildError>)
        ensures
            (JobRequest {
                nexus_uuid: nexus_uuid@,
                src_uri: src_uri@,
                dst_uri: dst_uri@,
                src,
                dst,
                start: range.start,
                end: range.end,
                rebuild_map: map_view(rebuild_map),
                options: options@,
            }).built(r, start_time),
    {
        let src_info = match src {
            DeviceOpen::Opened(info) => info,
            DeviceOpen::NoSuchDevice => {
                return Err(RebuildError::NoSuchDevice { side: IoSide::Src });
            },
            DeviceOpen::NoHandle => {
                return Err(RebuildError::NoBdevHandle { side: IoSide::Src });
            },
        };
        let dst_info = match dst {
            DeviceOpen::Opened(info) => info,
            DeviceOpen::NoSuchDevice => {
                return Err(RebuildError::NoSuchDevice { side: IoSide::Dst });
            },
            DeviceOpen::NoHandle => {
                return Err(RebuildError::NoBdevHandle { side: IoSide::Dst });
            },
        };
        let descriptor = match RebuildDescriptor::new(
            src_uri,
            dst_uri,
            src_info,
            dst_info,
            range,
            options.segment_size_bytes(),
            rebuild_map,
            start_time,
        ) {
            Ok(d) => d,
            Err(e) => {
                return Err(e);
            },
        };
        Ok(RebuildJob { nexus_uuid, backend: RebuildJobBackend::new(descriptor, options) })
    }

    /// Builds a rebuild job that starts its clock now.
    pub fn new(
        nexus_uuid: String,
        src_uri: String,
        dst_uri: String,
        src: DeviceOpen,
        dst: DeviceOpen,
        range: std::ops::Range<u64>,
        rebuild_map: Option<RebuildMap>,
        options: &RebuildOptions,
    ) -> (r: Result<Self, RebuildError>)
        ensures
            exists|start_time: i64|
                #[trigger] (JobRequest {
                    nexus_uuid: nexus_uuid@,
                    src_uri: src_uri@,
                    dst_uri: dst_uri@,
                    src,
                    dst,
                    start: range.start,
                    end: range.end,
                    rebuild_map: map_view(rebuild_map),
                    options: options@,
                }).built(r, start_time),
    {
        let start_time = utc_now_secs();
        Self::new_at(
            nexus_uuid,
            src_uri,
            dst_uri,
            src,
            dst,
            range,
            rebuild_map,
            options,
            start_time,
        )
    }

    /// The nexus that the job belongs to.
    pub fn nexus_uuid(&self) -> (r: &String)
        ensures
            r@ == self@.nexus_uuid,
    {
        &self.nexus_uuid
    }

    /// URI of the healthy child to rebuild from.
    pub fn src_uri(&self) -> (r: &String)
        ensures
            r@ == self@.backend.descriptor.src_uri,
    {
        self.backend.descriptor().src_uri()
    }

    /// URI of the out of sync child to rebuild.
    pub fn dst_uri(&self) -> (r: &String)
        ensures
            r@ == self@.backend.descriptor.dst_uri,
    {
        self.backend.descriptor().dst_uri()
    }

    /// The scheduler of the job.
    pub fn backend(&self) -> (r: &RebuildJobBackend)
        ensures
            r@ == self@.backend,
    {
        &self.backend
    }

    /// Current state of the job.
    pub fn state(&self) -> (r: RebuildState)
        ensures
            r == self@.backend.states.current,
    {
        self.backend.state()
    }

    /// The terminal state of the job, once it has ended and no task is in
    /// flight.
    pub fn terminal_state(&self) -> (r: Option<RebuildState>)
        ensures
            r == if self@.backend.states.current.is_terminal() && self@.backend.quiesced() {
                Some(self@.backend.states.current)
            } else {
                None
            },
    {
        let state = self.backend.state();
        if state.done() && self.backend.is_quiesced() {
            Some(state)
        } else {
            None
        }
    }

    /// Applies the command `op` at the time `now`.
    pub fn command_at(&mut self, op: RebuildOperation, now: i64) -> (r: Result<
        RebuildState,
        RebuildError,
    >)
        requires
            old(self).wf(),
        ensures
            final(self).wf(),
            final(self)@.nexus_uuid == old(self)@.nexus_uuid,
            final(self)@.backend == old(self)@.backend.command(op, now),
            r == command_answer(old(self)@.backend, op),
            legal_step(old(self)@.backend.states.current, final(self)@.backend.states.current),
            old(self)@.backend.states.current.is_terminal() ==> final(self)@ == old(self)@,
    {
        self.backend.command(op, now)
    }

    /// Applies the command `op` now.
    fn command(&mut self, op: RebuildOperation) -> (r: Result<RebuildState, RebuildError>)
        requires
            old(self).wf(),
        ensures
            final(self).wf(),
            commanded(old(self)@, op, final(self)@),
            r == command_answer(old(self)@.backend, op),
            legal_step(old(self)@.backend.states.current, final(self)@.backend.states.current),
            old(self)@.backend.states.current.is_terminal() ==> final(self)@ == old(self)@,
    {
        let now = utc_now_secs();
        let r = self.command_at(op, now);
        assert(final(self)@.backend == old(self)@.backend.command(op, now));
        r
    }

    /// Starts the job: `Init` becomes `Running`. A job that was started
    /// before refuses with `InvalidStateTransition`.
    pub fn start(&mut self) -> (r: Result<RebuildState, RebuildError>)
        requires
            old(self).wf(),
        ensures
            final(self).wf(),
            commanded(old(self)@, RebuildOperation::Start, final(self)@),
            r == command_answer(old(self)@.backend, RebuildOperation::Start),
            legal_step(old(self)@.backend.states.current, final(self)@.backend.states.current),
            old(self)@.backend.states.current.is_terminal() ==> final(self)@ == old(self)@,
    {
        self.command(RebuildOperation::Start)
    }

    /// Pauses the job: `Running` becomes `Paused` once the tasks in flight
    /// have finished. A paused job stays paused; a job that has ended, or has
    /// not started, refuses with `InvalidStateTransition`.
    pub fn pause(&mut self) -> (r: Result<RebuildState, RebuildError>)
        requires
            old(self).wf(),
        ensures
            final(self).wf(),
            commanded(old(self)@, RebuildOperation::Pause, final(self)@),
            r == command_answer(old(self)@.backend, RebuildOperation::Pause),
            legal_step(old(self)@.backend.states.current, final(self)@.backend.states.current),
            old(self)@.backend.states.current.is_terminal() ==> final(self)@ == old(self)@,
    {
        self.command(RebuildOperation::Pause)
    }

    /// Resumes the job: `Paused` becomes `Running`. A running job stays
    /// running; elsewhere the command is refused with
    /// `InvalidStateTransition`.
    pub fn resume(&mut self) -> (r: Result<RebuildState, RebuildError>)
        requires
            old(self).wf(),
        ensures
            final(self).wf(),
            commanded(old(self)@, RebuildOperation::Resume, final(self)@),
            r == command_answer(old(self)@.backend, RebuildOperation::Resume),
            legal_step(old(self)@.backend.states.current, final(self)@.backend.states.current),
            old(self)@.backend.states.current.is_terminal() ==> final(self)@ == old(self)@,
    {
        self.command(RebuildOperation::Resume)
    }

    /// Stops the job: every state but a terminal one becomes `Stopped`, a
    /// running job once its tasks in flight have finished. On a job that has
    /// ended the command changes nothing and answers the terminal state.
    pub fn stop(&mut self) -> (r: Result<RebuildState, RebuildError>)
        requires
            old(self).wf(),
        ensures
            final(self).wf(),
            commanded(old(self)@, RebuildOperation::Stop, final(self)@),
            r == command_answer(old(self)@.backend, RebuildOperation::Stop),
            r.is_ok(),
            legal_step(old(self)@.backend.states.current, final(self)@.backend.states.current),
            old(self)@.backend.states.current.is_terminal() ==> final(self)@ == old(self)@ && r
                == Ok::<RebuildState, RebuildError>(old(self)@.backend.states.current),
    {
        self.command(RebuildOperation::Stop)
    }

    /// Fails the job: `Running` becomes `Failed` at once. Elsewhere the
    /// command is refused with `InvalidStateTransition`.
    pub fn fail(&mut self) -> (r: Result<RebuildState, RebuildError>)
        requires
            old(self).wf(),
        ensures
            final(self).wf(),
            commanded(old(self)@, RebuildOperation::Fail, final(self)@),
            r == command_answer(old(self)@.backend, RebuildOperation::Fail),
            legal_step(old(self)@.backend.states.current, final(self)@.backend.states.current),
            old(self)@.backend.states.current.is_terminal() ==> final(self)@ == old(self)@,
    {
        self.command(RebuildOperation::Fail)
    }

    /// Takes the event `event` of the copy task in `slot` at the time `now`
    /// and returns the next action for that task.
    pub fn task_event_at(&mut self, slot: usize, event: TaskEvent, now: i64) -> (r: TaskAction)
        requires
            old(self).wf(),
        ensures
            final(self).wf(),
            final(self)@.nexus_uuid == old(self)@.nexus_uuid,
            final(self)@.backend == old(self)@.backend.stepped(slot as int, event, now),
            r == old(self)@.backend.step_action(slot as int, event),
            legal_step(old(self)@.backend.states.current, final(self)@.backend.states.current),
    {
        self.backend.task_event(slot, event, now)
    }

    /// Takes the event `event` of the copy task in `slot` now and returns the
    /// next action for that task.
    pub fn task_event(&mut self, slot: usize, event: TaskEvent) -> (r: TaskAction)
        requires
            old(self).wf(),
        ensures
            final(self).wf(),
            final(self)@.nexus_uuid == old(self)@.nexus_uuid,
            exists|now: i64|
                final(self)@.backend == #[trigger] old(self)@.backend.stepped(
                    slot as int,
                    event,
                    now,
                ),
            r == old(self)@.backend.step_action(slot as int, event),
            legal_step(old(self)@.backend.states.current, final(self)@.backend.states.current),
    {
        let now = utc_now_secs();
        let r = self.task_event_at(slot, event, now);
        assert(final(self)@.backend == old(self)@.backend.stepped(slot as int, event, now));
        r
    }

    /// One round of the scheduling loop at the time `now`.
    pub fn next_action_at(&mut self, now: i64) -> (r: BackendAction)
        requires
            old(self).wf(),
        ensures
            final(self).wf(),
            final(self)@.nexus_uuid == old(self)@.nexus_uuid,
            final(self)@.backend == old(self)@.backend.poll(now),
            r == old(self)@.backend.next_action(now),
            legal_step(old(self)@.backend.states.current, final(self)@.backend.states.current),
    {
        self.backend.next_action(now)
    }

    /// One round of the scheduling loop, now.
    pub fn next_action(&mut self) -> (r: BackendAction)
        requires
            old(self).wf(),
        ensures
            final(self).wf(),
            final(self)@.nexus_uuid == old(self)@.nexus_uuid,
            exists|now: i64|
                final(self)@.backend == #[trigger] old(self)@.backend.poll(now) && r == old(
                    self,
                )@.backend.next_action(now),
            legal_step(old(self)@.backend.states.current, final(self)@.backend.states.current),
    {
        let now = utc_now_secs();
        let r = self.next_action_at(now);
        assert(final(self)@.backend == old(self)@.backend.poll(now));
        r
    }

    /// A snapshot of the statistics of the job at the time `now`.
    pub fn stats_at(&self, now: i64) -> (r: RebuildStats)
        requires
            self.wf(),
        ensures
            r == self@.backend.stats(now),
    {
        self.backend.stats(now)
    }

    /// A snapshot of the statistics of the job, now.
    pub fn stats(&self) -> (r: RebuildStats)
        requires
            self.wf(),
        ensures
            exists|now: i64| r == #[trigger] self@.backend.stats(now),
    {
        let now = utc_now_secs();
        let r = self.stats_at(now);
        assert(r == self@.backend.stats(now));
        r
    }

    /// The record of the job for the history, once it has ended.
    pub fn history_record(&self) -> (r: Option<HistoryRecord>)
        requires
            self.wf(),
        ensures
            r.is_some() == self@.backend.states.current.is_terminal(),
            match r {
                Some(rec) => {
                    &&& rec.src_uri@ == self@.backend.descriptor.src_uri
                    &&& rec.dst_uri@ == self@.backend.descriptor.dst_uri
                    &&& rec.start == self@.backend.descriptor.start
                    &&& rec.end == self@.backend.descriptor.end
                    &&& rec.start_time == self@.backend.descriptor.start_time
                    &&& Some(rec.end_time) == self@.backend.end_time
                    &&& rec.final_state == self@.backend.states.current
                    &&& rec.final_stats == self@.backend.stats(rec.end_time)
                    &&& rec.error == self@.backend.error
                },
                None => true,
            },
    {
        self.backend.history_record()
    }
}

/// What a command answers: the state of the job after it, or
/// `InvalidStateTransition` with the state that refused it.
pub open spec fn command_answer(v: BackendView, op: RebuildOperation) -> Result<
    RebuildState,
    RebuildError,
> {
    let o = op_outcome(v.states, op, v.quiesced());
    if o.accepted {
        Ok(o.current)
    } else {
        Err(RebuildError::InvalidStateTransition { operation: op, state: v.states.current })
    }
}

/// Whether `after` is the job `before` after the command `op` at some time.
pub open spec fn commanded(before: RebuildJobView, op: RebuildOperation, after: RebuildJobView)
    -> bool {
    &&& after.nexus_uuid == before.nexus_uuid
    &&& exists|now: i64| after.backend == #[trigger] before.backend.command(op, now)
}

} // verus!
