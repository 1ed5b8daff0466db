use rebuild::{
    BackendAction, DeviceInfo, DeviceOpen, RebuildError, RebuildJob, RebuildOperation,
    RebuildOptions, RebuildState, TaskAction, TaskEvent,
};

fn job(blocks: u64) -> RebuildJob {
    let device = DeviceOpen::Opened(DeviceInfo { block_size: 512, num_blocks: 64 });
    let options = RebuildOptions::new(2, 4096, 8, 10).unwrap();
    RebuildJob::new(
        String::from("nexus-7"),
        String::from("src"),
        String::from("dst"),
        device,
        device,
        0..blocks,
        None,
        &options,
    )
    .unwrap()
}

fn refused(op: RebuildOperation, state: RebuildState) -> Result<RebuildState, RebuildError> {
    Err(RebuildError::InvalidStateTransition { operation: op, state })
}

/// Lets the task in `slot` copy its segment and report.
fn copy(job: &mut RebuildJob, slot: usize) {
    assert!(matches!(job.task_event(slot, TaskEvent::LockAcquired), TaskAction::Read { .. }));
    assert!(matches!(job.task_event(slot, TaskEvent::ReadDone), TaskAction::Write { .. }));
    assert!(matches!(job.task_event(slot, TaskEvent::WriteDone), TaskAction::Unlock { .. }));
    assert!(matches!(job.task_event(slot, TaskEvent::Unlocked), TaskAction::Emit(_)));
}

#[test]
fn new_job_is_in_init() {
    let j = job(16);
    assert_eq!(j.state(), RebuildState::Init);
    assert_eq!(j.terminal_state(), None);
    assert_eq!(j.nexus_uuid(), "nexus-7");
    assert_eq!(j.src_uri(), "src");
    assert_eq!(j.dst_uri(), "dst");
    assert!(j.history_record().is_none());
    let stats = j.stats();
    assert_eq!(stats.state, RebuildState::Init);
    assert_eq!(stats.blocks_total, 16);
    assert_eq!(stats.blocks_transferred, 0);
    assert_eq!(stats.blocks_remaining, 16);
    assert_eq!(stats.progress, 0);
    assert_eq!(stats.tasks_total, 2);
    assert_eq!(stats.tasks_active, 0);
    assert_eq!(stats.end_time, None);
    assert_eq!((stats.start, stats.end, stats.block_size), (0, 16, 512));
}

#[test]
fn job_takes_its_start_time_from_the_clock() {
    let before = chrono::Utc::now().timestamp();
    let j = job(16);
    let after = chrono::Utc::now().timestamp();
    let start = j.stats().start_time;
    assert!(before <= start && start <= after);
    assert!(start > 1_600_000_000);
}

#[test]
fn job_takes_its_end_time_from_the_clock() {
    let mut j = job(16);
    let before = chrono::Utc::now().timestamp();
    assert_eq!(j.stop(), Ok(RebuildState::Stopped));
    let after = chrono::Utc::now().timestamp();
    let end = j.stats().end_time.unwrap();
    assert!(before <= end && end <= after);
    assert_eq!(j.history_record().unwrap().end_time, end);
}

#[test]
fn start_twice_is_refused() {
    let mut j = job(16);
    assert_eq!(j.start(), Ok(RebuildState::Running));
    assert_eq!(j.start(), refused(RebuildOperation::Start, RebuildState::Running));
    assert_eq!(j.state(), RebuildState::Running);
}

#[test]
fn job_runs_to_completion() {
    let mut j = job(16);
    j.start().unwrap();
    assert_eq!(
        j.next_action(),
        BackendAction::Task { slot: 0, action: TaskAction::Lock { blk: 0, len: 8 } }
    );
    assert_eq!(
        j.next_action(),
        BackendAction::Task { slot: 1, action: TaskAction::Lock { blk: 8, len: 8 } }
    );
    assert_eq!(j.next_action(), BackendAction::Wait);
    assert_eq!(j.stats().tasks_active, 2);
    copy(&mut j, 1);
    assert_eq!(j.stats().blocks_transferred, 8);
    assert_eq!(j.stats().progress, 50);
    assert_eq!(j.next_action(), BackendAction::Wait);
    copy(&mut j, 0);
    assert_eq!(j.state(), RebuildState::Running);
    assert_eq!(j.terminal_state(), None);
    assert_eq!(j.next_action(), BackendAction::Exit(RebuildState::Completed));
    assert_eq!(j.terminal_state(), Some(RebuildState::Completed));
    let stats = j.stats();
    assert_eq!(stats.blocks_transferred, 16);
    assert_eq!(stats.progress, 100);
    assert!(stats.end_time.is_some());
    let rec = j.history_record().unwrap();
    assert_eq!(rec.final_state, RebuildState::Completed);
    assert_eq!(rec.final_stats.blocks_transferred, 16);
}

#[test]
fn commands_on_a_completed_job() {
    let mut j = job(8);
    j.start().unwrap();
    j.next_action();
    copy(&mut j, 0);
    assert_eq!(j.next_action(), BackendAction::Exit(RebuildState::Completed));
    let stats = j.stats_at(0);
    assert_eq!(j.stop(), Ok(RebuildState::Completed));
    assert_eq!(j.pause(), refused(RebuildOperation::Pause, RebuildState::Completed));
    assert_eq!(j.resume(), refused(RebuildOperation::Resume, RebuildState::Completed));
    assert_eq!(j.fail(), refused(RebuildOperation::Fail, RebuildState::Completed));
    assert_eq!(j.start(), refused(RebuildOperation::Start, RebuildState::Completed));
    assert_eq!(j.state(), RebuildState::Completed);
    assert_eq!(j.stats_at(0), stats);
    assert_eq!(j.next_action(), BackendAction::Exit(RebuildState::Completed));
}

#[test]
fn pause_and_resume_through_the_handle() {
    let mut j = job(32);
    assert_eq!(j.pause(), refused(RebuildOperation::Pause, RebuildState::Init));
    j.start().unwrap();
    j.next_action();
    assert_eq!(j.pause(), Ok(RebuildState::Running));
    assert_eq!(j.backend().pending_state(), Some(RebuildState::Paused));
    assert_eq!(j.next_action(), BackendAction::Wait);
    copy(&mut j, 0);
    assert_eq!(j.next_action(), BackendAction::Wait);
    assert_eq!(j.state(), RebuildState::Paused);
    assert_eq!(j.pause(), Ok(RebuildState::Paused));
    assert_eq!(j.stats().blocks_transferred, 8);
    assert_eq!(j.resume(), Ok(RebuildState::Running));
    assert_eq!(j.resume(), Ok(RebuildState::Running));
    assert_eq!(
        j.next_action(),
        BackendAction::Task { slot: 0, action: TaskAction::Lock { blk: 8, len: 8 } }
    );
}

#[test]
fn fail_forces_a_running_job_to_failed() {
    let mut j = job(16);
    assert_eq!(j.fail(), refused(RebuildOperation::Fail, RebuildState::Init));
    j.start().unwrap();
    assert_eq!(j.fail(), Ok(RebuildState::Failed));
    assert_eq!(j.terminal_state(), Some(RebuildState::Failed));
    assert_eq!(j.next_action(), BackendAction::Exit(RebuildState::Failed));
    assert_eq!(j.stop(), Ok(RebuildState::Failed));
}

#[test]
fn stop_before_start() {
    let mut j = job(16);
    assert_eq!(j.stop(), Ok(RebuildState::Stopped));
    assert_eq!(j.start(), refused(RebuildOperation::Start, RebuildState::Stopped));
    assert_eq!(j.next_action(), BackendAction::Exit(RebuildState::Stopped));
    assert_eq!(j.stats().blocks_transferred, 0);
}

#[test]
fn average_throughput_counts_from_start_to_end() {
    let device = DeviceOpen::Opened(DeviceInfo { block_size: 512, num_blocks: 64 });
    let options = RebuildOptions::new(1, 4096, 8, 10).unwrap();
    let mut j = RebuildJob::new_at(
        String::new(),
        String::new(),
        String::new(),
        device,
        device,
        0..16,
        None,
        &options,
        1_000,
    )
    .unwrap();
    j.command_at(RebuildOperation::Start, 1_000).unwrap();
    for t in [1_001, 1_003] {
        assert!(matches!(j.next_action_at(t), BackendAction::Task { .. }));
        j.task_event_at(0, TaskEvent::LockAcquired, t);
        j.task_event_at(0, TaskEvent::ReadDone, t);
        j.task_event_at(0, TaskEvent::WriteDone, t);
        j.task_event_at(0, TaskEvent::Unlocked, t + 1);
    }
    let running = j.stats_at(1_004);
    assert_eq!(running.blocks_transferred, 16);
    assert_eq!(running.throughput_avg, 16 * 512 / 4);
    assert_eq!(running.throughput_window, 16 * 512 / 10);
    assert_eq!(j.stats_at(1_012).throughput_window, 8 * 512 / 10);
    assert_eq!(j.next_action_at(1_008), BackendAction::Exit(RebuildState::Completed));
    let done = j.stats_at(5_000);
    assert_eq!(done.end_time, Some(1_008));
    assert_eq!(done.throughput_avg, 16 * 512 / 8);
    assert_eq!(done.throughput_window, 0);
    assert_eq!(j.history_record().unwrap().final_stats, j.stats_at(1_008));
}
