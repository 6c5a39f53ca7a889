use motion_cam::video::frame_duration_ms;
use motion_cam::config::{CloudConfig, FileSourceType, StorageConfig, VideoFileType};
use motion_cam::video::{parse_opts, upload_enabled, video_file_path, video_file_path_for};

fn pairs(v: &[(&str, &str)]) -> Vec<(String, String)> {
    v.iter().map(|(k, v)| (k.to_string(), v.to_string())).collect()
}

#[test]
fn options_are_key_value_pairs() {
    assert_eq!(parse_opts("enable-debug=3".to_string()), pairs(&[("enable-debug", "3")]));
    assert_eq!(parse_opts("".to_string()), pairs(&[]));
    assert_eq!(parse_opts("a=b,c=d,".to_string()), pairs(&[("a", "b"), ("c", "d")]));
    assert_eq!(parse_opts("a=,=b".to_string()), pairs(&[("a", ""), ("", "b")]));
}

#[test]
fn malformed_options_give_none() {
    assert_eq!(parse_opts("a=b,,c=d".to_string()), pairs(&[]));
    assert_eq!(parse_opts("a=b,c".to_string()), pairs(&[]));
    assert_eq!(parse_opts("a=b=c".to_string()), pairs(&[]));
    assert_eq!(parse_opts(",".to_string()), pairs(&[]));
    assert_eq!(parse_opts("a=b,,".to_string()), pairs(&[]));
}

fn storage(t: FileSourceType, v: VideoFileType) -> StorageConfig {
    StorageConfig { storage_type: t, path: "/var/videos".to_string(), video_file_type: v }
}

#[test]
fn recording_paths() {
    let local = storage(FileSourceType::Local, VideoFileType::Matroska);
    assert_eq!(
        video_file_path_for(&local, "front", "2022-01-02T03:04:05+00:00"),
        "/var/videos/front-2022-01-02T03:04:05+00:00.mkv"
    );
    let s3 = storage(FileSourceType::S3, VideoFileType::WebM);
    assert_eq!(video_file_path_for(&s3, "back", "T"), "/tmp/back-T.webm");
}

#[test]
fn recording_path_writes_the_start_time() {
    let local = storage(FileSourceType::Local, VideoFileType::Mp4);
    assert_eq!(video_file_path(&local, "cam", 0), "/var/videos/cam-1970-01-01T00:00:00+00:00.mp4");
    assert_eq!(
        video_file_path(&local, "cam", 1_500_000_000),
        "/var/videos/cam-1970-01-01T00:00:01.500+00:00.mp4"
    );
}

#[test]
fn upload_only_when_enabled() {
    let c = |e| CloudConfig { enabled: e, bucket: "b".to_string(), region: None };
    assert!(upload_enabled(&c(Some(true))));
    assert!(!upload_enabled(&c(Some(false))));
    assert!(!upload_enabled(&c(None)));
}

#[test]
fn frame_durations_in_milliseconds() {
    assert_eq!(frame_duration_ms(Some(0), Some(5), 1_500_000_000), Some(1500));
    assert_eq!(frame_duration_ms(Some(0), Some(0), 999_999), Some(0));
    assert_eq!(frame_duration_ms(Some(2_000_000_000), Some(0), 499_999), Some(-1999));
    assert_eq!(frame_duration_ms(Some(i64::MIN), Some(0), i64::MAX), Some(18446744073709));
    assert_eq!(frame_duration_ms(Some(0), None, 10), None);
    assert_eq!(frame_duration_ms(None, Some(3), 10), None);
}
