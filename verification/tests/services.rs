use motion_cam::db::{storage_type, video_file};
use motion_cam::config::{
    CameraConfig, CloudConfig, Config, DisplayConfig, FileSourceType, LogLevel, MotionConfig,
    StorageConfig, VideoFileType,
};
use motion_cam::file_source::LocalFileSource;
use motion_cam::repository::{label_matches, LocalVideoRepository, VideoFile};
use motion_cam::stream::ConnectionCount;
use motion_cam::upload::{select_region, UploadError};
use motion_cam::web::{decode_offer, encode_answer};

fn config() -> Config {
    Config {
        cameras: vec![CameraConfig {
            label: "front".to_string(),
            camera_type: "rtsp".to_string(),
            source: Some("rtsp://cam".to_string()),
        }],
        cloud: CloudConfig { enabled: None, bucket: "b".to_string(), region: None },
        motion: MotionConfig { min_threshold_size: 1, draw_contours: None, draw_rectangles: None },
        display: DisplayConfig { enabled: Some(false) },
        storage: StorageConfig {
            storage_type: FileSourceType::Local,
            path: "/srv/rec".to_string(),
            video_file_type: VideoFileType::Mp4,
        },
        log_level: LogLevel::Debug,
        ffmpeg_level: LogLevel::Warn,
    }
}

#[test]
fn stores_use_the_storage_directory() {
    let c = config();
    assert_eq!(LocalVideoRepository::new(&c).path(), "/srv/rec");
    assert_eq!(LocalFileSource::new(&c).path(), "/srv/rec");
}

#[test]
fn files_are_selected_by_label() {
    assert!(label_matches("front-2022-01-01T00:00:00+00:00.mkv", "front"));
    assert!(label_matches("garden-front.mkv", "front"));
    assert!(!label_matches("back-2022.mkv", "front"));
    assert!(!label_matches("fro", "front"));
    assert!(label_matches("anything", ""));
    assert!(label_matches("çamera-é.mkv", "a-é"));
    let f = VideoFile { file_name: "x.mkv".to_string() };
    assert_eq!(f.clone().file_name, "x.mkv");
}

#[test]
fn region_from_environment_then_configuration() {
    assert_eq!(
        select_region(Some("eu-west-1".to_string()), &Some("us-east-1".to_string())).unwrap(),
        "eu-west-1"
    );
    assert_eq!(select_region(None, &Some("us-east-1".to_string())).unwrap(), "us-east-1");
    let e = select_region(None, &None).unwrap_err();
    assert_eq!(e.description(), "Region not set");
    assert_eq!(UploadError::new("boom").description(), "boom");
}

#[test]
fn offers_and_answers_are_base64() {
    let json = "{\"type\":\"offer\",\"sdp\":\"v=0\"}";
    let encoded = encode_answer(json);
    assert_eq!(encoded, "eyJ0eXBlIjoib2ZmZXIiLCJzZHAiOiJ2PTAifQ==");
    assert_eq!(decode_offer(&encoded).as_deref(), Some(json));
    assert_eq!(decode_offer("aGVsbG8="), Some("hello".to_string()));
    assert_eq!(decode_offer("not base64!"), None);
    assert_eq!(decode_offer("/w=="), None);
}

#[test]
fn connections_are_counted() {
    let mut c = ConnectionCount::new();
    assert!(!c.has_viewers());
    c.bind();
    c.bind();
    assert_eq!(c.count(), 2);
    assert!(c.has_viewers());
    c.unbind();
    c.unbind();
    assert_eq!(c.count(), 0);
    assert!(!c.has_viewers());
}

#[test]
fn catalogue_records() {
    let s = storage_type::Model { id: 1, name: "local".to_string() };
    let v = video_file::Model {
        id: 7,
        path: "/srv/rec/a.mkv".to_string(),
        name: "a.mkv".to_string(),
        label: "front".to_string(),
        ts: 0,
        created: 1,
        modified: 2,
        storage_type_id: s.id,
    };
    assert_eq!(v.clone().storage_type_id, 1);
    assert_eq!(storage_type::Relation::VideoFile, storage_type::Relation::VideoFile);
    assert_eq!(video_file::Relation::StorageType, video_file::Relation::StorageType);
}
