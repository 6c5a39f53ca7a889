//! Motion-triggered camera recorder: the verified core.
//!
//! The library holds the decisions and data transformations of the recorder:
//! configuration values, pixel-format conversion, the motion-detection state
//! machine, file naming, option parsing and the small protocols around upload
//! and streaming. Device access, encoding and networking live in the
//! application crate around it.

pub mod config;
pub mod db;
pub mod file_source;
pub mod text;
pub mod upload;
pub mod frame;
pub mod frame_reader;
pub mod frame_viewer;
pub mod motion;
pub mod repository;
pub mod stream;
pub mod video;
pub mod web;
