//! Configuration values of the recorder, as read from its settings file.
//!
//! The settings file itself is read and parsed by the application; these are
//! the values the library works with.

use vstd::prelude::*;
use crate::text::str_eq;

verus! {

/// Where recorded videos are kept.
#[derive(Clone, Copy, Debug, PartialEq, Eq, Structural)]
pub enum FileSourceType {
    Local,
    S3,
}

/// The lower-case name under which a storage kind appears in the settings file.
pub open spec fn file_source_type_name(t: FileSourceType) -> Seq<char> {
    match t {
        FileSourceType::Local => "local"@,
        FileSourceType::S3 => "s3"@,
    }
}

impl FileSourceType {
    /// Reads a storage kind from its lower-case name; any other text is refused.
    pub fn from_str(s: &str) -> (r: Result<FileSourceType, ()>)
        ensures
            r matches Ok(t) ==> s@ == file_source_type_name(t),
            r is Err <==> (forall|t: FileSourceType| s@ != #[trigger] file_source_type_name(t)),
    {
        proof {
            reveal_strlit("local");
            reveal_strlit("s3");
        }
        if str_eq(s, "local") {
            assert(s@ == file_source_type_name(FileSourceType::Local));
            Ok(FileSourceType::Local)
        } else if str_eq(s, "s3") {
            assert(s@ == file_source_type_name(FileSourceType::S3));
            Ok(FileSourceType::S3)
        } else {
            assert forall|t: FileSourceType| s@ != #[trigger] file_source_type_name(t) by {
                match t {
                    FileSourceType::Local => {},
                    FileSourceType::S3 => {},
                }
            }
            Err(())
        }
    }
}

/// Verbosity of the log, from least to most verbose.
#[derive(Clone, Copy, Debug, PartialEq, Eq, Structural)]
pub enum LogLevel {
    Error,
    Warn,
    Info,
    Debug,
    Trace,
}

/// Position of a level in the order Error < Warn < Info < Debug < Trace.
pub open spec fn log_level_rank(l: LogLevel) -> int {
    match l {
        LogLevel::Error => 1,
        LogLevel::Warn => 2,
        LogLevel::Info => 3,
        LogLevel::Debug => 4,
        LogLevel::Trace => 5,
    }
}

impl LogLevel {
    /// Position of this level in the order Error < Warn < Info < Debug < Trace.
    pub fn rank(&self) -> (r: u8)
        ensures
            r == log_level_rank(*self),
    {
        match self {
            LogLevel::Error => 1,
            LogLevel::Warn => 2,
            LogLevel::Info => 3,
            LogLevel::Debug => 4,
            LogLevel::Trace => 5,
        }
    }

    /// Whether a record of level `record` is written when the log is set to `self`:
    /// exactly the records that are no more verbose than the setting.
    pub fn enabled(&self, record: LogLevel) -> (r: bool)
        ensures
            r == (log_level_rank(record) <= log_level_rank(*self)),
    {
        record.rank() <= self.rank()
    }
}

/// Container format of the recorded videos.
#[derive(Clone, Copy, Debug, PartialEq, Eq, Structural)]
pub enum VideoFileType {
    Matroska,
    Mp4,
    WebM,
}

/// The file-name extension of each container format.
pub open spec fn video_extension(t: VideoFileType) -> Seq<char> {
    match t {
        VideoFileType::Matroska => "mkv"@,
        VideoFileType::Mp4 => "mp4"@,
        VideoFileType::WebM => "webm"@,
    }
}

impl VideoFileType {
    /// The file-name extension of this container format.
    pub fn extension(&self) -> (e: &'static str)
        ensures
            e@ == video_extension(*self),
    {
        match self {
            VideoFileType::Matroska => "mkv",
            VideoFileType::Mp4 => "mp4",
            VideoFileType::WebM => "webm",
        }
    }
}

/// The whole configuration.
#[derive(Clone, Debug)]
pub struct Config {
    pub cameras: Vec<CameraConfig>,
    pub cloud: CloudConfig,
    pub motion: MotionConfig,
    pub display: DisplayConfig,
    pub storage: StorageConfig,
    pub log_level: LogLevel,
    pub ffmpeg_level: LogLevel,
}

/// One camera: its label, its kind of reader ("rtsp" or "v4l") and its source.
#[derive(Clone, Debug)]
pub struct CameraConfig {
    pub label: String,
    pub camera_type: String,
    pub source: Option<String>,
}

/// Upload of finished videos to a cloud bucket.
#[derive(Clone, Debug)]
pub struct CloudConfig {
    pub enabled: Option<bool>,
    pub bucket: String,
    pub region: Option<String>,
}

/// Motion detection: the smallest contour area that counts as motion.
#[derive(Clone, Debug)]
pub struct MotionConfig {
    pub min_threshold_size: i32,
    pub draw_contours: Option<bool>,
    pub draw_rectangles: Option<bool>,
}

/// The live display.
#[derive(Clone, Debug)]
pub struct DisplayConfig {
    pub enabled: Option<bool>,
}

impl DisplayConfig {
    /// Whether the live display is on: it is unless the settings turn it off.
    pub fn is_enabled(&self) -> (r: bool)
        ensures
            r == (self.enabled != Some(false)),
    {
        match self.enabled {
            Some(b) => b,
            None => true,
        }
    }
}

/// Where and how videos are stored.
#[derive(Clone, Debug)]
pub struct StorageConfig {
    pub storage_type: FileSourceType,
    pub path: String,
    pub video_file_type: VideoFileType,
}

} // verus!
