use motion_cam::config::MotionConfig;
use motion_cam::motion::{
    check_in_motion_window, FrameSend, MotionDetector, INITIAL_MOTION_TIME,
    MIN_MOTION_CAPTURE_NANOS,
};

const SEC: i64 = 1_000_000_000;

fn detector(threshold: i32) -> MotionDetector {
    MotionDetector::new(&MotionConfig {
        min_threshold_size: threshold,
        draw_contours: None,
        draw_rectangles: None,
    })
}

fn send(is_start: bool, is_end: bool, new_writer: bool) -> FrameSend {
    FrameSend { is_start, is_end, new_writer }
}

#[test]
fn motion_window_is_ten_seconds() {
    assert_eq!(MIN_MOTION_CAPTURE_NANOS, 10 * SEC);
    assert!(check_in_motion_window(100 * SEC, 95 * SEC));
    assert!(check_in_motion_window(100 * SEC - 1, 90 * SEC));
    assert!(!check_in_motion_window(100 * SEC, 90 * SEC));
    assert!(!check_in_motion_window(100 * SEC, 10 * SEC));
    assert!(check_in_motion_window(i64::MIN, i64::MIN));
    assert!(!check_in_motion_window(i64::MAX, i64::MIN));
}

#[test]
fn new_detector_is_quiet() {
    let d = detector(500);
    assert!(!d.in_motion && !d.in_motion_window && !d.has_writer);
    assert_eq!(d.last_motion_time, INITIAL_MOTION_TIME);
    assert_eq!(d.min_threshold_size, 500);
}

#[test]
fn first_large_region_is_the_motion() {
    let d = detector(500);
    assert_eq!(d.find_motion(&vec![10, 499, 500, 900]), Some(2));
    assert_eq!(d.find_motion(&vec![10, 20]), None);
    assert_eq!(d.find_motion(&vec![]), None);
}

#[test]
fn recording_starts_continues_and_ends() {
    let mut d = detector(500);
    let t0 = 1_000 * SEC;

    // Small changes only: nothing is recorded.
    let out = d.step(t0, &vec![100, 200]);
    assert_eq!(out.motion_contour, None);
    assert!(out.sends.is_empty() && !out.close_writer);

    // Motion: a start frame creates the writer, then the frame itself follows.
    let out = d.step(t0 + SEC, &vec![100, 800]);
    assert_eq!(out.motion_contour, Some(1));
    assert_eq!(out.sends, vec![send(true, false, true), send(false, false, false)]);
    assert!(!out.close_writer);
    assert!(d.in_motion && d.in_motion_window && d.has_writer);
    assert_eq!(d.last_motion_time, t0 + SEC);

    // No motion, 9 s later: still recording.
    let out = d.step(t0 + 10 * SEC, &vec![]);
    assert_eq!(out.sends, vec![send(false, false, false)]);

    // 10 s after the last motion: the end frame, and the writer is dropped.
    let out = d.step(t0 + 11 * SEC, &vec![]);
    assert_eq!(out.sends, vec![send(false, true, false)]);
    assert!(out.close_writer);
    assert!(!d.in_motion_window && !d.has_writer && d.in_motion);

    // Quiet again.
    let out = d.step(t0 + 12 * SEC, &vec![1]);
    assert!(out.sends.is_empty());

    // A second motion opens a new writer, but no second start frame is sent.
    let out = d.step(t0 + 20 * SEC, &vec![5000]);
    assert_eq!(out.sends, vec![send(false, false, true)]);
    assert!(d.has_writer && d.in_motion_window);
}
