use motion_cam::config::{
    CameraConfig, CloudConfig, Config, DisplayConfig, FileSourceType, LogLevel, MotionConfig,
    StorageConfig, VideoFileType,
};

#[allow(non_snake_case)]
#[test]
fn should_parse_lowercase_fileSourceType() {
    let variant = FileSourceType::from_str("local").unwrap();
    assert_eq!(FileSourceType::Local, variant);
}

#[test]
fn file_source_type_names() {
    assert_eq!(FileSourceType::from_str("s3"), Ok(FileSourceType::S3));
    assert_eq!(FileSourceType::from_str("Local"), Err(()));
    assert_eq!(FileSourceType::from_str(""), Err(()));
    assert_eq!(FileSourceType::from_str("local "), Err(()));
}

#[test]
fn video_extensions() {
    assert_eq!(VideoFileType::Matroska.extension(), "mkv");
    assert_eq!(VideoFileType::Mp4.extension(), "mp4");
    assert_eq!(VideoFileType::WebM.extension(), "webm");
}

#[test]
fn log_levels_order_verbosity() {
    assert_eq!(LogLevel::Error.rank(), 1);
    assert_eq!(LogLevel::Trace.rank(), 5);
    assert!(LogLevel::Info.enabled(LogLevel::Error));
    assert!(LogLevel::Info.enabled(LogLevel::Info));
    assert!(!LogLevel::Info.enabled(LogLevel::Debug));
    assert!(LogLevel::Trace.enabled(LogLevel::Trace));
    assert!(!LogLevel::Error.enabled(LogLevel::Warn));
}

#[test]
fn display_is_on_unless_turned_off() {
    assert!(DisplayConfig { enabled: None }.is_enabled());
    assert!(DisplayConfig { enabled: Some(true) }.is_enabled());
    assert!(!DisplayConfig { enabled: Some(false) }.is_enabled());
}

pub fn sample_config(storage_type: FileSourceType) -> Config {
    Config {
        cameras: vec![CameraConfig {
            label: "front".to_string(),
            camera_type: "v4l".to_string(),
            source: None,
        }],
        cloud: CloudConfig { enabled: Some(true), bucket: "videos".to_string(), region: None },
        motion: MotionConfig { min_threshold_size: 500, draw_contours: None, draw_rectangles: None },
        display: DisplayConfig { enabled: None },
        storage: StorageConfig {
            storage_type,
            path: "/var/videos".to_string(),
            video_file_type: VideoFileType::Matroska,
        },
        log_level: LogLevel::Info,
        ffmpeg_level: LogLevel::Error,
    }
}

#[test]
fn config_holds_its_values() {
    let c = sample_config(FileSourceType::Local);
    let d = c.clone();
    assert_eq!(d.cameras.len(), 1);
    assert_eq!(d.cameras[0].label, "front");
    assert_eq!(d.storage.path, "/var/videos");
    assert_eq!(d.motion.min_threshold_size, 500);
}
