//! The earlier Video4Linux capture path, which converts every window of four
//! consecutive bytes.

use vstd::prelude::*;
use crate::frame::{push_pair, yuyv_pair_to_bgr};

verus! {

/// Pixel formats this capture path knows.
#[derive(Clone, Copy, Debug, PartialEq, Eq, Structural)]
pub enum Format {
    YUYV,
}

/// Every window of four consecutive bytes `[a, b, c, d]` of the buffer, read
/// as a YUYV group and expanded to six BGR bytes, window after window: a
/// buffer of `n >= 4` bytes gives `n - 3` windows.
pub open spec fn yuyv_windows_bgr(buf: Seq<u8>) -> Seq<u8>
    decreases buf.len(),
{
    if buf.len() < 4 {
        seq![]
    } else {
        let n = buf.len();
        yuyv_windows_bgr(buf.drop_last()) + yuyv_pair_to_bgr(buf[n - 4], buf[n - 3], buf[n - 2], buf[n - 1])
    }
}

/// Expands every window of four consecutive bytes of a YUYV buffer to two BGR
/// pixels (the windows overlap: they start at every byte).
pub fn yuyv_to_bgr(buf: &[u8]) -> (r: Vec<u8>)
    ensures
        r@ == yuyv_windows_bgr(buf@),
{
    let mut mat_buf: Vec<u8> = Vec::new();
    let n = buf.len();
    if n < 4 {
        return mat_buf;
    }
    let mut k: usize = 0;
    while k < n - 3
        invariant
            n == buf@.len(),
            n >= 4,
            k <= n - 3,
            mat_buf@ == yuyv_windows_bgr(buf@.subrange(0, k + 3)),
        decreases n - k,
    {
        push_pair(&mut mat_buf, buf[k], buf[k + 1], buf[k + 2], buf[k + 3]);
        proof {
            let next = buf@.subrange(0, k + 4);
            assert(next.drop_last() =~= buf@.subrange(0, k + 3));
        }
        k += 1;
    }
    assert(buf@.subrange(0, n as int) =~= buf@);
    mat_buf
}

/// Converts a captured buffer of the pixel format named `fourcc` to BGR;
/// YUYV is the only format handled.
pub fn to_bgr(buf: &[u8], fourcc: &str) -> (r: Vec<u8>)
    requires
        fourcc@ == "YUYV"@,
    ensures
        r@ == yuyv_windows_bgr(buf@),
{
    yuyv_to_bgr(buf)
}

} // verus!
