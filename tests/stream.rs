use fat_vfs::blocks::{block_segments, needs_merge, splice_bytes, Segment};
use fat_vfs::stream::{FatDevice, SeekTarget, StreamError};

#[test]
fn new_adapter_starts_at_zero() {
    let d = FatDevice::new(4096);
    assert_eq!(d.position(), 0);
    assert_eq!(d.size(), 4096);
}

#[test]
fn seek_from_each_origin() {
    let mut d = FatDevice::new(1000);
    assert_eq!(d.seek(SeekTarget::Start(100)), Ok(100));
    assert_eq!(d.seek(SeekTarget::Current(-40)), Ok(60));
    assert_eq!(d.seek(SeekTarget::End(-1)), Ok(999));
    assert_eq!(d.seek(SeekTarget::End(24)), Ok(1024));
    assert_eq!(d.position(), 1024);
}

#[test]
fn seek_before_start_is_refused() {
    let mut d = FatDevice::new(1000);
    d.seek(SeekTarget::Start(10)).unwrap();
    assert_eq!(d.seek(SeekTarget::Current(-11)), Err(StreamError::InvalidSeek));
    assert_eq!(d.seek(SeekTarget::End(-1001)), Err(StreamError::InvalidSeek));
    assert_eq!(d.position(), 10);
    let mut e = FatDevice::new(u64::MAX);
    assert_eq!(e.seek(SeekTarget::End(1)), Err(StreamError::InvalidSeek));
}

#[test]
fn read_past_end_is_empty() {
    let mut d = FatDevice::new(100);
    assert_eq!(d.read_len(30), 30);
    d.seek(SeekTarget::Start(90)).unwrap();
    assert_eq!(d.read_len(30), 10);
    d.seek(SeekTarget::Start(100)).unwrap();
    assert_eq!(d.read_len(30), 0);
    d.seek(SeekTarget::Start(500)).unwrap();
    assert_eq!(d.read_len(30), 0);
}

#[test]
fn write_past_end_is_out_of_range() {
    let mut d = FatDevice::new(100);
    d.seek(SeekTarget::Start(95)).unwrap();
    assert_eq!(d.write_len(10), Ok(5));
    d.seek(SeekTarget::Start(100)).unwrap();
    assert_eq!(d.write_len(1), Err(StreamError::OutOfRange));
    assert_eq!(d.write_len(0), Ok(0));
}

#[test]
fn consume_moves_cursor_by_reported_bytes() {
    let mut d = FatDevice::new(100);
    d.seek(SeekTarget::Start(90)).unwrap();
    let planned = d.read_len(30);
    assert_eq!(d.consume(planned, 4), Ok(4));
    assert_eq!(d.position(), 94);
    assert_eq!(d.consume(6, 7), Err(StreamError::Device));
    assert_eq!(d.position(), 94);
}

#[test]
fn segments_cut_at_block_boundaries() {
    let segs = block_segments(5, 10, 4);
    assert_eq!(
        segs,
        vec![
            Segment { block: 1, start: 1, len: 3, buf_off: 0 },
            Segment { block: 2, start: 0, len: 4, buf_off: 3 },
            Segment { block: 3, start: 0, len: 3, buf_off: 7 },
        ]
    );
    assert!(needs_merge(&segs[0], 4));
    assert!(!needs_merge(&segs[1], 4));
    assert!(needs_merge(&segs[2], 4));
}

#[test]
fn segments_of_empty_and_aligned_transfers() {
    assert!(block_segments(7, 0, 512).is_empty());
    let segs = block_segments(1024, 1024, 512);
    assert_eq!(
        segs,
        vec![
            Segment { block: 2, start: 0, len: 512, buf_off: 0 },
            Segment { block: 3, start: 0, len: 512, buf_off: 512 },
        ]
    );
    let one = block_segments(3, 2, 512);
    assert_eq!(one, vec![Segment { block: 0, start: 3, len: 2, buf_off: 0 }]);
}

#[test]
fn splice_keeps_untouched_bytes() {
    let mut block = vec![0u8; 8];
    splice_bytes(&mut block, 2, &[9, 8, 7, 6], 1, 3);
    assert_eq!(block, vec![0, 0, 8, 7, 6, 0, 0, 0]);
    splice_bytes(&mut block, 0, &[1], 0, 0);
    assert_eq!(block, vec![0, 0, 8, 7, 6, 0, 0, 0]);
}
