use termixer::lookback::CaptureLookback;
use termixer::ring::RingBuf;

#[test]
fn ring_keeps_the_newest_values() {
    let mut r: RingBuf<u32, 3> = RingBuf::new(0);
    assert_eq!(r.len(), 0);
    assert!(r.iter().is_empty());
    r.push(1);
    r.push(2);
    assert_eq!(r.iter(), vec![1, 2]);
    r.push(3);
    r.push(4);
    r.push(5);
    assert_eq!(r.len(), 3);
    assert_eq!(r.iter(), vec![3, 4, 5]);
}

#[test]
fn ring_of_one() {
    let mut r: RingBuf<i64, 1> = RingBuf::new(-1);
    r.push(7);
    r.push(8);
    assert_eq!(r.iter(), vec![8]);
}

#[test]
fn lookback_capacity_and_frames() {
    let lb: CaptureLookback<i32> = CaptureLookback::new(4, 2, 0);
    assert_eq!(lb.frame_count(), 0);
    // At least two samples are kept, even for a single mono frame.
    let mut tiny: CaptureLookback<i32> = CaptureLookback::new(0, 0, 0);
    tiny.push_interleaved(&[1, 2, 3]);
    assert_eq!(tiny.frame_count(), 2);
}

#[test]
fn reverse_read_walks_back_frame_by_frame() {
    let mut lb: CaptureLookback<i32> = CaptureLookback::new(4, 2, 0);
    lb.push_interleaved(&[1, 2, 3, 4, 5, 6]);
    assert_eq!(lb.frame_count(), 3);
    let mut out = [0i32; 4];
    let mut cursor = None;
    let n = lb.fill_reverse_from_cursor(&mut out, &mut cursor);
    assert_eq!(n, 4);
    assert_eq!(out, [5, 6, 3, 4]);
    assert_eq!(cursor, Some(0));
    let n = lb.fill_reverse_from_cursor(&mut out, &mut cursor);
    assert_eq!(n, 2);
    assert_eq!(out, [1, 2, 3, 4]);
    assert_eq!(cursor, Some(0));
}

#[test]
fn overflow_keeps_the_most_recent_whole_frames() {
    let mut lb: CaptureLookback<i32> = CaptureLookback::new(4, 2, 0);
    lb.push_interleaved(&[1, 2, 3, 4, 5, 6]);
    lb.push_interleaved(&[7, 8, 9, 10, 11]);
    assert_eq!(lb.frame_count(), 4);
    let mut out = [0i32; 8];
    let mut cursor = None;
    assert_eq!(lb.fill_reverse_from_cursor(&mut out, &mut cursor), 8);
    assert_eq!(out, [10, 11, 8, 9, 6, 7, 4, 5]);
    assert_eq!(cursor, Some(0));
}

#[test]
fn cursor_past_the_history_starts_at_the_newest_frame() {
    let mut lb: CaptureLookback<i32> = CaptureLookback::new(8, 1, 0);
    lb.push_interleaved(&[10, 20, 30]);
    let mut out = [0i32; 2];
    let mut cursor = Some(99);
    assert_eq!(lb.fill_reverse_from_cursor(&mut out, &mut cursor), 2);
    assert_eq!(out, [30, 20]);
    assert_eq!(cursor, Some(0));
    let mut cursor = Some(2);
    let mut one = [0i32; 1];
    assert_eq!(lb.fill_reverse_from_cursor(&mut one, &mut cursor), 1);
    assert_eq!(one, [30]);
    assert_eq!(cursor, Some(1));
}

#[test]
fn nothing_to_read_leaves_everything_alone() {
    let lb: CaptureLookback<i32> = CaptureLookback::new(4, 2, 0);
    let mut out = [9i32; 4];
    let mut cursor = Some(3);
    assert_eq!(lb.fill_reverse_from_cursor(&mut out, &mut cursor), 0);
    assert_eq!(out, [9; 4]);
    assert_eq!(cursor, Some(3));
    let mut full: CaptureLookback<i32> = CaptureLookback::new(4, 2, 0);
    full.push_interleaved(&[1, 2]);
    let mut short = [9i32; 1];
    assert_eq!(full.fill_reverse_from_cursor(&mut short, &mut cursor), 0);
    assert_eq!(short, [9]);
}
