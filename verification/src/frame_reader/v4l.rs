//! The Video4Linux reader.

use vstd::prelude::*;

verus! {

/// The device a Video4Linux reader opens: the configured source, or
/// `/dev/video0` when none is configured.
pub fn device_path<'a>(source: Option<&'a str>) -> (p: &'a str)
    ensures
        p@ == (match source {
            Some(s) => s@,
            None => "/dev/video0"@,
        }),
{
    match source {
        Some(p) => p,
        None => "/dev/video0",
    }
}

} // verus!
