use rebuild::{
    BackendAction, DeviceInfo, IoSide, RebuildDescriptor, RebuildError, RebuildJobBackend,
    RebuildMap, RebuildOperation, RebuildOptions, RebuildState, TaskAction, TaskEvent,
};

const BLOCK_SIZE: u64 = 512;
const SEGMENT_BYTES: u64 = 4096;

/// Two in-memory devices, the range locks taken on them, and what went on.
struct Devices {
    src: Vec<u8>,
    dst: Vec<u8>,
    buffers: Vec<Vec<u8>>,
    locks: Vec<(u64, u64)>,
    dispatches: Vec<(u64, u64)>,
    max_locks: usize,
    write_error: Option<i32>,
    read_error: Option<i32>,
    lock_failures: usize,
    now: i64,
}

impl Devices {
    fn new(blocks: u64, src_fill: u8, tasks: usize) -> Self {
        Devices {
            src: vec![src_fill; (blocks * BLOCK_SIZE) as usize],
            dst: vec![0; (blocks * BLOCK_SIZE) as usize],
            buffers: vec![Vec::new(); tasks],
            locks: Vec::new(),
            dispatches: Vec::new(),
            max_locks: 0,
            write_error: None,
            read_error: None,
            lock_failures: 0,
            now: 1_000,
        }
    }

    fn bytes(blk: u64, len: u64) -> std::ops::Range<usize> {
        (blk * BLOCK_SIZE) as usize..((blk + len) * BLOCK_SIZE) as usize
    }

    /// Does what a task was told to do and says how it ended.
    fn perform(&mut self, slot: usize, action: TaskAction) -> Option<TaskEvent> {
        match action {
            TaskAction::Lock { blk, len } => {
                if self.lock_failures > 0 {
                    self.lock_failures -= 1;
                    return Some(TaskEvent::LockFailed);
                }
                assert!(len <= SEGMENT_BYTES / BLOCK_SIZE);
                for (b, l) in self.locks.iter() {
                    assert!(blk + len <= *b || *b + *l <= blk, "range locks overlap");
                }
                self.locks.push((blk, len));
                self.max_locks = self.max_locks.max(self.locks.len());
                Some(TaskEvent::LockAcquired)
            }
            TaskAction::Read { blk, len } => {
                assert!(self.locks.contains(&(blk, len)));
                match self.read_error {
                    Some(cause) => Some(TaskEvent::ReadFailed { cause }),
                    None => {
                        self.buffers[slot] = self.src[Self::bytes(blk, len)].to_vec();
                        Some(TaskEvent::ReadDone)
                    }
                }
            }
            TaskAction::Write { blk, len } => {
                assert!(self.locks.contains(&(blk, len)));
                match self.write_error {
                    Some(cause) => Some(TaskEvent::WriteFailed { cause }),
                    None => {
                        let buffer = self.buffers[slot].clone();
                        self.dst[Self::bytes(blk, len)].copy_from_slice(&buffer);
                        Some(TaskEvent::WriteDone)
                    }
                }
            }
            TaskAction::Unlock { blk, len } => {
                let at = self.locks.iter().position(|l| *l == (blk, len)).unwrap();
                self.locks.remove(at);
                Some(TaskEvent::Unlocked)
            }
            TaskAction::Emit(_) | TaskAction::Ignore => None,
        }
    }
}

fn backend(range: std::ops::Range<u64>, blocks: u64, map: Option<RebuildMap>, tasks: usize) -> RebuildJobBackend {
    let device = DeviceInfo { block_size: BLOCK_SIZE, num_blocks: blocks };
    let options = RebuildOptions::new(tasks, SEGMENT_BYTES, 8, 10).unwrap();
    let descriptor = RebuildDescriptor::new(
        String::from("src"),
        String::from("dst"),
        device,
        device,
        range,
        options.segment_size_bytes(),
        map,
        1_000,
    )
    .unwrap();
    RebuildJobBackend::new(descriptor, &options)
}

/// What holds of the statistics at every moment of a run.
fn check_counters(backend: &RebuildJobBackend, devices: &Devices) {
    let stats = backend.stats(devices.now);
    assert!(stats.blocks_transferred + stats.blocks_skipped <= stats.blocks_total);
    assert_eq!(
        stats.blocks_remaining,
        stats.blocks_total - stats.blocks_transferred - stats.blocks_skipped
    );
    assert!(stats.progress <= 100);
    assert!(stats.tasks_active <= stats.tasks_total);
    assert!(devices.locks.len() as u64 <= stats.tasks_active);
    if stats.state == RebuildState::Completed {
        assert_eq!(stats.blocks_transferred + stats.blocks_skipped, stats.blocks_total);
        assert_eq!(stats.progress, 100);
    }
}

/// Runs the scheduling loop until it waits with nothing in flight, leaves, or
/// `until` says so. The tasks take their steps in turn, one step each.
fn drive(
    backend: &mut RebuildJobBackend,
    devices: &mut Devices,
    pending: &mut Vec<(usize, TaskAction)>,
    until: &dyn Fn(&RebuildJobBackend) -> bool,
) -> Option<RebuildState> {
    loop {
        loop {
            let before = backend.state();
            devices.now += 1;
            match backend.next_action(devices.now) {
                BackendAction::Task { slot, action } => {
                    match action {
                        TaskAction::Lock { blk, len } => devices.dispatches.push((blk, len)),
                        other => panic!("a task starts with the lock, not with {:?}", other),
                    }
                    pending.push((slot, action));
                }
                BackendAction::Wait => break,
                BackendAction::Exit(state) => {
                    assert_eq!(state, backend.state());
                    assert!(backend.is_quiesced());
                    assert!(devices.locks.is_empty());
                    return Some(state);
                }
            }
            let after = backend.state();
            assert!(before == after || !matches!(before, RebuildState::Stopped | RebuildState::Failed | RebuildState::Completed));
            check_counters(backend, devices);
        }
        if until(backend) || pending.is_empty() {
            return None;
        }
        task_step(backend, devices, pending);
    }
}

/// Lets the task that has waited longest take one step.
fn task_step(
    backend: &mut RebuildJobBackend,
    devices: &mut Devices,
    pending: &mut Vec<(usize, TaskAction)>,
) {
    let (slot, action) = pending.remove(0);
    if let Some(event) = devices.perform(slot, action) {
        devices.now += 1;
        let next = backend.task_event(slot, event, devices.now);
        match next {
            TaskAction::Emit(_) => {}
            TaskAction::Ignore => panic!("the task ignored {:?}", event),
            other => pending.push((slot, other)),
        }
    }
    check_counters(backend, devices);
}

fn run_to_end(backend: &mut RebuildJobBackend, devices: &mut Devices) -> RebuildState {
    let mut pending = Vec::new();
    drive(backend, devices, &mut pending, &|_| false).expect("the job ends")
}

#[test]
fn full_rebuild_of_16_blocks() {
    let mut backend = backend(0..16, 16, None, 16);
    let mut devices = Devices::new(16, 0xAA, 16);
    assert_eq!(backend.state(), RebuildState::Init);
    assert_eq!(backend.command(RebuildOperation::Start, 1_000), Ok(RebuildState::Running));
    assert_eq!(run_to_end(&mut backend, &mut devices), RebuildState::Completed);
    let stats = backend.stats(devices.now);
    assert_eq!(stats.state, RebuildState::Completed);
    assert_eq!(stats.blocks_total, 16);
    assert_eq!(stats.blocks_transferred, 16);
    assert_eq!(stats.blocks_remaining, 0);
    assert_eq!(stats.segments_done, 2);
    assert_eq!(stats.segments_skipped, 0);
    assert_eq!(stats.progress, 100);
    assert_eq!(stats.tasks_total, 16);
    assert_eq!(stats.tasks_active, 0);
    assert!(devices.dst.iter().all(|b| *b == 0xAA));
    assert_eq!(devices.dst, devices.src);
    assert_eq!(devices.max_locks, 2);
}

#[test]
fn partial_rebuild_via_map() {
    let mut map = RebuildMap::new(3, 8);
    map.blk_clean(8);
    let mut backend = backend(0..24, 24, Some(map), 16);
    let mut devices = Devices::new(24, 0xBB, 16);
    backend.command(RebuildOperation::Start, 1_000).unwrap();
    assert_eq!(run_to_end(&mut backend, &mut devices), RebuildState::Completed);
    let stats = backend.stats(devices.now);
    assert_eq!(stats.blocks_transferred, 16);
    assert_eq!(stats.blocks_skipped, 8);
    assert_eq!(stats.segments_done, 2);
    assert_eq!(stats.segments_skipped, 1);
    assert_eq!(stats.progress, 100);
    assert_eq!(devices.dispatches, vec![(0, 8), (16, 8)]);
    assert!(devices.dst[Devices::bytes(0, 8)].iter().all(|b| *b == 0xBB));
    assert!(devices.dst[Devices::bytes(8, 8)].iter().all(|b| *b == 0));
    assert!(devices.dst[Devices::bytes(16, 8)].iter().all(|b| *b == 0xBB));
    for blk in 0..24 {
        assert!(backend.descriptor().is_blk_sync(blk));
    }
}

#[test]
fn short_final_segment() {
    let mut backend = backend(0..10, 16, None, 16);
    let mut devices = Devices::new(16, 0xCC, 16);
    backend.command(RebuildOperation::Start, 1_000).unwrap();
    assert_eq!(run_to_end(&mut backend, &mut devices), RebuildState::Completed);
    assert_eq!(devices.dispatches, vec![(0, 8), (8, 2)]);
    let stats = backend.stats(devices.now);
    assert_eq!(stats.blocks_transferred, 10);
    assert_eq!(stats.segments_done, 2);
    assert!(devices.dst[Devices::bytes(0, 10)].iter().all(|b| *b == 0xCC));
    assert!(devices.dst[Devices::bytes(10, 6)].iter().all(|b| *b == 0));
}

#[test]
fn pause_and_resume() {
    let mut backend = backend(0..64, 64, None, 2);
    let mut devices = Devices::new(64, 0xDD, 2);
    let mut pending = Vec::new();
    backend.command(RebuildOperation::Start, 1_000).unwrap();
    let ended = drive(&mut backend, &mut devices, &mut pending, &|b| b.stats(0).segments_done >= 2);
    assert_eq!(ended, None);
    assert_eq!(backend.stats(devices.now).segments_done, 2);

    // Tasks are in flight: the pause waits for them.
    assert!(!backend.is_quiesced());
    assert_eq!(backend.command(RebuildOperation::Pause, devices.now), Ok(RebuildState::Running));
    assert_eq!(backend.pending_state(), Some(RebuildState::Paused));
    let ended = drive(&mut backend, &mut devices, &mut pending, &|_| false);
    assert_eq!(ended, None);
    assert_eq!(backend.state(), RebuildState::Paused);
    assert!(backend.is_quiesced());
    assert!(devices.locks.is_empty());
    let paused = backend.stats(devices.now);
    assert!(paused.blocks_transferred < 64);
    assert_eq!(paused.blocks_transferred, 8 * paused.segments_done);

    // Nothing moves while the job is paused.
    for _ in 0..100 {
        devices.now += 1;
        assert_eq!(backend.next_action(devices.now), BackendAction::Wait);
    }
    let still = backend.stats(devices.now);
    assert_eq!(still.state, RebuildState::Paused);
    assert_eq!(still.blocks_transferred, paused.blocks_transferred);
    assert_eq!(backend.command(RebuildOperation::Pause, devices.now), Ok(RebuildState::Paused));

    assert_eq!(backend.command(RebuildOperation::Resume, devices.now), Ok(RebuildState::Running));
    assert_eq!(run_to_end(&mut backend, &mut devices), RebuildState::Completed);
    let stats = backend.stats(devices.now);
    assert_eq!(stats.blocks_transferred, 64);
    assert_eq!(stats.segments_done, 8);
    assert_eq!(devices.dst, devices.src);
}

#[test]
fn many_pause_resume_cycles_transfer_the_same() {
    let mut backend = backend(0..64, 64, None, 3);
    let mut devices = Devices::new(64, 0x5A, 3);
    let mut pending = Vec::new();
    backend.command(RebuildOperation::Start, 1_000).unwrap();
    let mut cycles = 0;
    loop {
        let seen = backend.stats(0).segments_done;
        let ended = drive(&mut backend, &mut devices, &mut pending, &|b| {
            b.stats(0).segments_done > seen
        });
        if let Some(state) = ended {
            assert_eq!(state, RebuildState::Completed);
            break;
        }
        if backend.state() == RebuildState::Running {
            backend.command(RebuildOperation::Pause, devices.now).unwrap();
            let _ = drive(&mut backend, &mut devices, &mut pending, &|_| false);
            if backend.state() == RebuildState::Paused {
                cycles += 1;
                backend.command(RebuildOperation::Resume, devices.now).unwrap();
            }
        }
    }
    assert!(cycles >= 2);
    let stats = backend.stats(devices.now);
    assert_eq!(stats.blocks_transferred, 64);
    assert_eq!(stats.blocks_skipped, 0);
    assert_eq!(devices.dst, devices.src);
}

#[test]
fn fail_on_destination_write_error() {
    let mut backend = backend(0..16, 16, None, 16);
    let mut devices = Devices::new(16, 0xEE, 16);
    devices.write_error = Some(5);
    backend.command(RebuildOperation::Start, 1_000).unwrap();
    assert_eq!(run_to_end(&mut backend, &mut devices), RebuildState::Failed);
    let stats = backend.stats(devices.now);
    assert_eq!(stats.state, RebuildState::Failed);
    assert_eq!(stats.blocks_transferred, 0);
    assert_eq!(stats.segments_done, 0);
    assert_eq!(stats.throughput_avg, 0);
    assert!(devices.locks.is_empty());
    assert!(devices.dst.iter().all(|b| *b == 0));
    let record = backend.history_record().unwrap();
    assert_eq!(record.final_state, RebuildState::Failed);
    assert_eq!(
        record.error,
        Some(RebuildError::IoError { side: IoSide::Dst, offset: 0, len: 8, cause: 5 })
    );
    assert_eq!(record.final_stats.blocks_transferred, 0);
    assert_eq!(record.src_uri, "src");
    assert_eq!(record.dst_uri, "dst");
    assert_eq!((record.start, record.end), (0, 16));
    assert_eq!(Some(record.end_time), backend.end_time());
}

#[test]
fn fail_on_source_read_error() {
    let mut backend = backend(8..24, 32, None, 1);
    let mut devices = Devices::new(32, 0x11, 1);
    devices.read_error = Some(61);
    backend.command(RebuildOperation::Start, 1_000).unwrap();
    assert_eq!(run_to_end(&mut backend, &mut devices), RebuildState::Failed);
    assert_eq!(
        backend.error(),
        Some(RebuildError::IoError { side: IoSide::Src, offset: 8, len: 8, cause: 61 })
    );
    assert_eq!(devices.dispatches, vec![(8, 8)]);
    assert!(devices.locks.is_empty());
}

#[test]
fn lock_failure_is_retried_once() {
    let mut devices = Devices::new(16, 0x22, 1);
    devices.lock_failures = 1;
    let mut backend1 = backend(0..16, 16, None, 1);
    backend1.command(RebuildOperation::Start, 1_000).unwrap();
    assert_eq!(run_to_end(&mut backend1, &mut devices), RebuildState::Completed);
    assert_eq!(devices.dst, devices.src);

    let mut devices = Devices::new(16, 0x22, 1);
    devices.lock_failures = 2;
    let mut backend2 = backend(0..16, 16, None, 1);
    backend2.command(RebuildOperation::Start, 1_000).unwrap();
    assert_eq!(run_to_end(&mut backend2, &mut devices), RebuildState::Failed);
    assert_eq!(backend2.error(), Some(RebuildError::RangeLockFailed { offset: 0, len: 8 }));
    assert!(devices.locks.is_empty());
}

#[test]
fn rerun_with_clean_map_transfers_nothing() {
    let map = RebuildMap::new(3, 8);
    let mut first = backend(0..24, 24, Some(map), 4);
    let mut devices = Devices::new(24, 0x77, 4);
    first.command(RebuildOperation::Start, 1_000).unwrap();
    assert_eq!(run_to_end(&mut first, &mut devices), RebuildState::Completed);
    assert_eq!(first.stats(devices.now).blocks_transferred, 24);

    // The map of the completed rebuild is fully clean; so is this one.
    let mut clean = RebuildMap::new(3, 8);
    for blk in [0, 8, 16] {
        assert!(first.descriptor().is_blk_sync(blk));
        clean.blk_clean(blk);
    }
    assert!(clean.is_all_clean());
    let mut second = backend(0..24, 24, Some(clean), 4);
    let before = devices.dst.clone();
    devices.dispatches.clear();
    second.command(RebuildOperation::Start, 2_000).unwrap();
    assert_eq!(second.next_action(2_001), BackendAction::Exit(RebuildState::Completed));
    let stats = second.stats(2_001);
    assert_eq!(stats.blocks_transferred, 0);
    assert_eq!(stats.blocks_skipped, 24);
    assert_eq!(stats.segments_skipped, 3);
    assert_eq!(stats.progress, 100);
    assert!(devices.dispatches.is_empty());
    assert_eq!(devices.dst, before);
}

#[test]
fn stop_waits_for_the_tasks_in_flight() {
    let mut backend = backend(0..64, 64, None, 4);
    let mut devices = Devices::new(64, 0x33, 4);
    let mut pending = Vec::new();
    backend.command(RebuildOperation::Start, 1_000).unwrap();
    let _ = drive(&mut backend, &mut devices, &mut pending, &|b| b.stats(0).segments_done >= 1);
    assert_eq!(backend.command(RebuildOperation::Stop, devices.now), Ok(RebuildState::Running));
    assert_eq!(backend.pending_state(), Some(RebuildState::Stopped));
    assert_eq!(
        backend.command(RebuildOperation::Pause, devices.now),
        Err(RebuildError::InvalidStateTransition {
            operation: RebuildOperation::Pause,
            state: RebuildState::Running,
        })
    );
    let dispatched = devices.dispatches.len();
    let ended = drive(&mut backend, &mut devices, &mut pending, &|_| false);
    assert_eq!(ended, Some(RebuildState::Stopped));
    assert_eq!(devices.dispatches.len(), dispatched);
    assert!(devices.locks.is_empty());
    let stats = backend.stats(devices.now);
    assert!(stats.blocks_transferred < 64);
    assert_eq!(stats.blocks_transferred, 8 * dispatched as u64);
    // Stopping again is a no-op that answers the terminal state.
    let end_time = backend.end_time();
    assert_eq!(backend.command(RebuildOperation::Stop, devices.now + 50), Ok(RebuildState::Stopped));
    assert_eq!(backend.end_time(), end_time);
    assert_eq!(backend.next_action(devices.now + 51), BackendAction::Exit(RebuildState::Stopped));
}

#[test]
fn forced_failure_quiesces() {
    let mut backend = backend(0..32, 32, None, 2);
    let mut devices = Devices::new(32, 0x44, 2);
    let mut pending = Vec::new();
    backend.command(RebuildOperation::Start, 1_000).unwrap();
    let _ = drive(&mut backend, &mut devices, &mut pending, &|b| b.stats(0).segments_done >= 1);
    assert_eq!(backend.command(RebuildOperation::Fail, devices.now), Ok(RebuildState::Failed));
    assert!(!backend.is_quiesced());
    assert_eq!(backend.next_action(devices.now), BackendAction::Wait);
    let ended = drive(&mut backend, &mut devices, &mut pending, &|_| false);
    assert_eq!(ended, Some(RebuildState::Failed));
    assert_eq!(backend.error(), None);
    assert!(devices.locks.is_empty());
    assert_eq!(
        backend.command(RebuildOperation::Fail, devices.now),
        Err(RebuildError::InvalidStateTransition {
            operation: RebuildOperation::Fail,
            state: RebuildState::Failed,
        })
    );
}

#[test]
fn pool_bounds_the_locks_in_flight() {
    let mut backend = backend(0..128, 128, None, 3);
    let mut devices = Devices::new(128, 0x66, 3);
    backend.command(RebuildOperation::Start, 1_000).unwrap();
    assert_eq!(run_to_end(&mut backend, &mut devices), RebuildState::Completed);
    assert_eq!(devices.max_locks, 3);
    let blks: Vec<u64> = devices.dispatches.iter().map(|d| d.0).collect();
    let mut sorted = blks.clone();
    sorted.sort();
    assert_eq!(blks, sorted);
    assert_eq!(blks.len(), 16);
    assert_eq!(devices.dst, devices.src);
}

#[test]
fn events_for_unknown_or_idle_tasks_are_ignored() {
    let mut backend = backend(0..16, 16, None, 2);
    backend.command(RebuildOperation::Start, 1_000).unwrap();
    assert_eq!(backend.task_event(7, TaskEvent::LockAcquired, 1_001), TaskAction::Ignore);
    assert_eq!(backend.task_event(0, TaskEvent::WriteDone, 1_001), TaskAction::Ignore);
    assert_eq!(backend.stats(1_001).blocks_transferred, 0);
    assert_eq!(backend.next_blk(), 0);
    assert_eq!(
        backend.next_action(1_002),
        BackendAction::Task { slot: 0, action: TaskAction::Lock { blk: 0, len: 8 } }
    );
    assert_eq!(backend.task_event(0, TaskEvent::Unlocked, 1_003), TaskAction::Ignore);
    assert_eq!(backend.task_event(0, TaskEvent::LockAcquired, 1_003), TaskAction::Read { blk: 0, len: 8 });
    assert_eq!(backend.tasks_active(), 1);
    assert_eq!(backend.task_state(1), Some(rebuild::TaskState::Idle));
    assert_eq!(backend.task_state(2), None);
}

#[test]
fn host_writes_during_the_rebuild_are_kept() {
    let mut backend = backend(0..64, 64, None, 3);
    let mut devices = Devices::new(64, 0x10, 3);
    let mut pending = Vec::new();
    backend.command(RebuildOperation::Start, 1_000).unwrap();
    let mut seed: u64 = 0x9E37_79B9_7F4A_7C15;
    let mut writes = 0;
    loop {
        if let Some(state) = drive(&mut backend, &mut devices, &mut pending, &|_| true) {
            assert_eq!(state, RebuildState::Completed);
            break;
        }
        // The host writes one block; the nexus mirrors it to both children,
        // unless a copy task holds the block locked.
        seed = seed.wrapping_mul(6364136223846793005).wrapping_add(1442695040888963407);
        let blk = (seed >> 33) % 64;
        if !devices.locks.iter().any(|(b, l)| *b <= blk && blk < *b + *l) {
            let data = vec![(seed >> 17) as u8; BLOCK_SIZE as usize];
            devices.src[Devices::bytes(blk, 1)].copy_from_slice(&data);
            devices.dst[Devices::bytes(blk, 1)].copy_from_slice(&data);
            writes += 1;
        }
        task_step(&mut backend, &mut devices, &mut pending);
    }
    assert!(writes > 10);
    assert_eq!(backend.stats(devices.now).blocks_transferred, 64);
    assert_eq!(devices.dst, devices.src);
    assert!(devices.src.iter().any(|b| *b != 0x10));
}
