use rebuild::{
    DeviceInfo, DeviceOpen, HistoryRecord, IoSide, RebuildError, RebuildJob, RebuildMap,
    RebuildOperation, RebuildOptions, RebuildState, Registry,
};

fn opened(blocks: u64) -> DeviceOpen {
    DeviceOpen::Opened(DeviceInfo { block_size: 512, num_blocks: blocks })
}

fn options() -> RebuildOptions {
    RebuildOptions::new(16, 4096, 2, 10).unwrap()
}

fn job(dst: &str) -> Result<RebuildJob, RebuildError> {
    RebuildJob::new_at(
        String::from("nexus-1"),
        String::from("src"),
        String::from(dst),
        opened(64),
        opened(64),
        0..16,
        None,
        &options(),
        500,
    )
}

fn record(dst: &str, end_time: i64) -> HistoryRecord {
    let mut j = job(dst).unwrap();
    j.command_at(RebuildOperation::Stop, end_time).unwrap();
    j.history_record().unwrap()
}

#[test]
fn duplicate_start() {
    let mut registry: Registry<RebuildJob> = Registry::new(8);
    let first = job("dst-a").unwrap();
    let uri = first.dst_uri().clone();
    assert_eq!(registry.insert(uri, first), Ok(()));
    let second = job("dst-a").unwrap();
    let uri = second.dst_uri().clone();
    assert_eq!(registry.insert(uri, second), Err(RebuildError::AlreadyExists));
    assert_eq!(registry.len(), 1);
}

#[test]
fn jobs_for_different_destinations_coexist() {
    let mut registry: Registry<u32> = Registry::new(8);
    assert_eq!(registry.insert(String::from("a"), 1), Ok(()));
    assert_eq!(registry.insert(String::from("b"), 2), Ok(()));
    assert_eq!(registry.insert(String::from("a"), 3), Err(RebuildError::AlreadyExists));
    assert_eq!(registry.len(), 2);
    assert_eq!(registry.lookup(&String::from("a")), Some(&1));
    assert_eq!(registry.lookup(&String::from("b")), Some(&2));
    assert_eq!(registry.lookup(&String::from("c")), None);
    assert!(registry.contains(&String::from("a")));
    assert!(!registry.contains(&String::from("")));
}

#[test]
fn removed_job_makes_room_for_a_new_one() {
    let mut registry: Registry<u32> = Registry::new(8);
    registry.insert(String::from("a"), 1).unwrap();
    registry.insert(String::from("b"), 2).unwrap();
    registry.insert(String::from("c"), 3).unwrap();
    assert_eq!(registry.remove(&String::from("b")), Some(2));
    assert_eq!(registry.remove(&String::from("b")), None);
    assert_eq!(registry.len(), 2);
    assert_eq!(registry.lookup(&String::from("a")), Some(&1));
    assert_eq!(registry.lookup(&String::from("c")), Some(&3));
    assert_eq!(registry.insert(String::from("b"), 4), Ok(()));
    assert_eq!(registry.lookup(&String::from("b")), Some(&4));
}

#[test]
fn finished_job_enters_the_history() {
    let mut registry: Registry<u32> = Registry::new(8);
    registry.insert(String::from("dst-a"), 1).unwrap();
    assert_eq!(registry.finish(&String::from("dst-a"), record("dst-a", 600)), Some(1));
    assert_eq!(registry.len(), 0);
    assert_eq!(registry.history().len(), 1);
    let rec = &registry.history()[0];
    assert_eq!(rec.dst_uri, "dst-a");
    assert_eq!(rec.src_uri, "src");
    assert_eq!(rec.final_state, RebuildState::Stopped);
    assert_eq!(rec.start_time, 500);
    assert_eq!(rec.end_time, 600);
    assert_eq!(rec.error, None);
    assert_eq!(rec.final_stats.blocks_total, 16);
    // Nothing is recorded for a destination without a live job.
    assert_eq!(registry.finish(&String::from("dst-a"), record("dst-a", 700)), None);
    assert_eq!(registry.history().len(), 1);
}

#[test]
fn history_keeps_the_last_records() {
    let mut registry: Registry<u32> = Registry::new(2);
    for (i, name) in ["a", "b", "c", "d"].iter().enumerate() {
        registry.record(record(name, 600 + i as i64));
        assert!(registry.history().len() <= 2);
    }
    let kept: Vec<&str> = registry.history().iter().map(|r| r.dst_uri.as_str()).collect();
    assert_eq!(kept, vec!["c", "d"]);
}

#[test]
fn history_of_depth_zero_keeps_nothing() {
    let mut registry: Registry<u32> = Registry::new(0);
    registry.record(record("a", 600));
    assert_eq!(registry.history().len(), 0);
}

#[test]
fn job_is_not_built_on_a_device_that_did_not_open() {
    let build = |src, dst| {
        RebuildJob::new_at(String::new(), String::new(), String::new(), src, dst, 0..16, None, &options(), 0)
            .err()
    };
    assert_eq!(build(DeviceOpen::NoSuchDevice, opened(64)), Some(RebuildError::NoSuchDevice { side: IoSide::Src }));
    assert_eq!(build(opened(64), DeviceOpen::NoSuchDevice), Some(RebuildError::NoSuchDevice { side: IoSide::Dst }));
    assert_eq!(build(DeviceOpen::NoHandle, opened(64)), Some(RebuildError::NoBdevHandle { side: IoSide::Src }));
    assert_eq!(build(opened(64), DeviceOpen::NoHandle), Some(RebuildError::NoBdevHandle { side: IoSide::Dst }));
    assert_eq!(build(DeviceOpen::NoHandle, DeviceOpen::NoSuchDevice), Some(RebuildError::NoBdevHandle { side: IoSide::Src }));
    assert_eq!(build(opened(64), opened(8)), Some(RebuildError::BadRange));
    assert_eq!(build(opened(64), opened(64)), None);
}

#[test]
fn job_with_a_map_that_does_not_fit_is_a_bad_range() {
    let r = RebuildJob::new_at(
        String::new(),
        String::new(),
        String::new(),
        opened(64),
        opened(64),
        0..16,
        Some(RebuildMap::new(5, 8)),
        &options(),
        0,
    );
    assert_eq!(r.err(), Some(RebuildError::BadRange));
}
