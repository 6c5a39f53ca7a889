//! Records of the video catalogue.

pub mod storage_type;
pub mod video_file;
