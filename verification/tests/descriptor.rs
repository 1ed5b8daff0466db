use rebuild::rebuild_descriptor::segments_for;
use rebuild::{DeviceInfo, RebuildDescriptor, RebuildError, RebuildMap, Within};

fn device(blocks: u64) -> DeviceInfo {
    DeviceInfo { block_size: 512, num_blocks: blocks }
}

fn descriptor(range: std::ops::Range<u64>, map: Option<RebuildMap>) -> Result<RebuildDescriptor, RebuildError> {
    RebuildDescriptor::new(
        String::from("bdev:///src"),
        String::from("bdev:///dst"),
        device(1024),
        device(1024),
        range,
        4096,
        map,
        77,
    )
}

#[test]
fn within_accepts_contained_ranges() {
    assert!((0..16u64).within(0..16));
    assert!((4..8u64).within(0..16));
    assert!((0..1u64).within(0..u64::MAX));
}

#[test]
fn within_rejects_ranges_that_stick_out() {
    assert!(!(0..17u64).within(0..16));
    assert!(!(3..8u64).within(4..16));
    assert!(!(16..32u64).within(0..16));
}

#[test]
fn within_rejects_empty_and_inverted_ranges() {
    assert!(!(4..4u64).within(0..16));
    assert!(!(8..4u64).within(0..16));
    assert!(!(4..8u64).within(16..16));
    assert!(!(4..8u64).within(16..0));
}

#[test]
fn descriptor_holds_what_it_was_built_with() {
    let d = descriptor(8..24, None).unwrap();
    assert_eq!(d.block_size(), 512);
    assert_eq!(d.segment_size_blks(), 8);
    assert_eq!(d.range(), 8..24);
    assert_eq!(d.src_uri(), "bdev:///src");
    assert_eq!(d.dst_uri(), "bdev:///dst");
    assert_eq!(d.start_time(), 77);
    assert!(!d.has_map());
}

#[test]
fn segment_size_is_short_at_the_end_of_the_range() {
    let d = descriptor(0..10, None).unwrap();
    assert_eq!(d.get_segment_size_blks(0), 8);
    assert_eq!(d.get_segment_size_blks(2), 8);
    assert_eq!(d.get_segment_size_blks(3), 7);
    assert_eq!(d.get_segment_size_blks(8), 2);
    assert_eq!(d.get_segment_size_blks(9), 1);
    assert_eq!(d.get_segment_size_blks(10), 0);
    assert_eq!(d.get_segment_size_blks(u64::MAX), 0);
}

#[test]
fn without_a_map_no_block_is_in_sync() {
    let mut d = descriptor(0..16, None).unwrap();
    assert!(!d.is_blk_sync(0));
    d.blk_synced(0);
    assert!(!d.is_blk_sync(0));
    assert!(!d.is_blk_sync(1000));
}

#[test]
fn map_counts_segments_from_the_start_of_the_range() {
    let mut d = descriptor(16..40, Some(RebuildMap::new(3, 8))).unwrap();
    assert!(d.has_map());
    for blk in 16..40 {
        assert!(!d.is_blk_sync(blk));
    }
    d.blk_synced(24);
    for blk in 16..24 {
        assert!(!d.is_blk_sync(blk));
    }
    for blk in 24..32 {
        assert!(d.is_blk_sync(blk));
    }
    for blk in 32..40 {
        assert!(!d.is_blk_sync(blk));
    }
    // Outside the range there is nothing to transfer.
    assert!(d.is_blk_sync(15));
    assert!(d.is_blk_sync(40));
    d.blk_synced(3);
    assert!(!d.is_blk_sync(16));
}

#[test]
fn empty_range_is_a_bad_range() {
    assert_eq!(descriptor(8..8, None).err(), Some(RebuildError::BadRange));
    assert_eq!(descriptor(16..8, None).err(), Some(RebuildError::BadRange));
}

#[test]
fn range_outside_a_device_is_a_bad_range() {
    assert_eq!(descriptor(0..1025, None).err(), Some(RebuildError::BadRange));
    let r = RebuildDescriptor::new(
        String::new(),
        String::new(),
        device(1024),
        device(16),
        0..24,
        4096,
        None,
        0,
    );
    assert_eq!(r.err(), Some(RebuildError::BadRange));
    let r = RebuildDescriptor::new(
        String::new(),
        String::new(),
        device(16),
        device(1024),
        0..24,
        4096,
        None,
        0,
    );
    assert_eq!(r.err(), Some(RebuildError::BadRange));
}

#[test]
fn unaligned_range_is_a_bad_range() {
    assert_eq!(descriptor(4..24, None).err(), Some(RebuildError::BadRange));
    assert!(descriptor(8..21, None).is_ok());
}

#[test]
fn mismatched_block_or_segment_size_is_a_bad_range() {
    let other = DeviceInfo { block_size: 4096, num_blocks: 1024 };
    let r = RebuildDescriptor::new(String::new(), String::new(), device(1024), other, 0..8, 4096, None, 0);
    assert_eq!(r.err(), Some(RebuildError::BadRange));
    let zero = DeviceInfo { block_size: 0, num_blocks: 1024 };
    let r = RebuildDescriptor::new(String::new(), String::new(), zero, zero, 0..8, 4096, None, 0);
    assert_eq!(r.err(), Some(RebuildError::BadRange));
    let r = RebuildDescriptor::new(String::new(), String::new(), device(1024), device(1024), 0..8, 1000, None, 0);
    assert_eq!(r.err(), Some(RebuildError::BadRange));
    let r = RebuildDescriptor::new(String::new(), String::new(), device(1024), device(1024), 0..8, 0, None, 0);
    assert_eq!(r.err(), Some(RebuildError::BadRange));
}

#[test]
fn map_must_fit_the_range() {
    assert!(descriptor(0..24, Some(RebuildMap::new(3, 8))).is_ok());
    assert!(descriptor(0..17, Some(RebuildMap::new(3, 8))).is_ok());
    assert_eq!(descriptor(0..24, Some(RebuildMap::new(2, 8))).err(), Some(RebuildError::BadRange));
    assert_eq!(descriptor(0..24, Some(RebuildMap::new(4, 8))).err(), Some(RebuildError::BadRange));
    assert_eq!(descriptor(0..24, Some(RebuildMap::new(3, 16))).err(), Some(RebuildError::BadRange));
}

#[test]
fn segments_for_rounds_up() {
    assert_eq!(segments_for(0, 8), 0);
    assert_eq!(segments_for(1, 8), 1);
    assert_eq!(segments_for(8, 8), 1);
    assert_eq!(segments_for(9, 8), 2);
    assert_eq!(segments_for(24, 8), 3);
    assert_eq!(segments_for(u64::MAX, 1), u64::MAX);
    assert_eq!(segments_for(u64::MAX, u64::MAX), 1);
}
