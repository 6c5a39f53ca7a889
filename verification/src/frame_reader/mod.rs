//! Frame readers: the choice of reader for a camera, and the pieces of their
//! work that are pure computation.

pub mod frame_reader_v4l;
pub mod rtsp;
pub mod v4l;

use vstd::prelude::*;
use crate::text::str_eq;

verus! {

/// The kinds of frame reader.
#[derive(Clone, Copy, Debug, PartialEq, Eq, Structural)]
pub enum FrameReaderKind {
    /// Frames decoded from an RTSP stream.
    Rtsp,
    /// Frames captured from a Video4Linux device.
    V4l,
}

/// The reader that serves a camera of type `camera_type`: "rtsp" or "v4l";
/// any other type has none.
pub fn frame_reader_kind(camera_type: &str) -> (k: Option<FrameReaderKind>)
    ensures
        k == (if camera_type@ == "rtsp"@ {
            Some(FrameReaderKind::Rtsp)
        } else if camera_type@ == "v4l"@ {
            Some(FrameReaderKind::V4l)
        } else {
            None
        }),
{
    if str_eq(camera_type, "rtsp") {
        Some(FrameReaderKind::Rtsp)
    } else if str_eq(camera_type, "v4l") {
        Some(FrameReaderKind::V4l)
    } else {
        None
    }
}

} // verus!
