use motion_cam::frame_reader::frame_reader_v4l::{to_bgr, yuyv_to_bgr, Format};
use motion_cam::frame_reader::rtsp::{ppm_header, RTSPFrameReader};
use motion_cam::frame_reader::v4l::device_path;
use motion_cam::frame_reader::{frame_reader_kind, FrameReaderKind};

#[test]
fn reader_for_camera_type() {
    assert_eq!(frame_reader_kind("rtsp"), Some(FrameReaderKind::Rtsp));
    assert_eq!(frame_reader_kind("v4l"), Some(FrameReaderKind::V4l));
    assert_eq!(frame_reader_kind("usb"), None);
    assert_eq!(frame_reader_kind("RTSP"), None);
    let _reader = RTSPFrameReader {};
}

#[test]
fn v4l_device_defaults_to_video0() {
    assert_eq!(device_path(None), "/dev/video0");
    assert_eq!(device_path(Some("/dev/video2")), "/dev/video2");
}

#[test]
fn ppm_header_text() {
    assert_eq!(ppm_header(640, 480), b"P6\n640 480\n255\n".to_vec());
    assert_eq!(ppm_header(0, 7), b"P6\n0 7\n255\n".to_vec());
    assert_eq!(ppm_header(4294967295, 10), b"P6\n4294967295 10\n255\n".to_vec());
}

#[test]
fn windows_cover_every_offset() {
    let _f = Format::YUYV;
    assert!(yuyv_to_bgr(&[1, 2, 3]).is_empty());
    assert_eq!(yuyv_to_bgr(&[100, 128, 200, 128]), vec![100, 100, 100, 200, 200, 200]);
    // Five bytes give two overlapping windows: [100,128,200,128] and [128,200,128,50].
    let out = yuyv_to_bgr(&[100, 128, 200, 128, 50]);
    assert_eq!(out.len(), 12);
    assert_eq!(&out[0..6], &[100, 100, 100, 200, 200, 200]);
    assert_eq!(to_bgr(&[100, 128, 200, 128, 50], "YUYV"), out);
}
