//! The RTSP reader.

use vstd::prelude::*;

verus! {

/// Reads frames from an RTSP stream.
#[derive(Clone, Copy, Debug)]
pub struct RTSPFrameReader {}

/// The decimal digits of `n`, as ASCII bytes, without leading zeros.
pub open spec fn decimal(n: nat) -> Seq<u8>
    decreases n,
{
    if n < 10 {
        seq![(48 + n) as u8]
    } else {
        decimal(n / 10).push((48 + n % 10) as u8)
    }
}

/// The header of a binary PPM image of the given size:
/// `P6\n<width> <height>\n255\n`.
pub open spec fn ppm_header_bytes(width: u32, height: u32) -> Seq<u8> {
    seq![80u8, 54, 10] + decimal(width as nat) + seq![32u8] + decimal(height as nat) + seq![
        10u8,
        50,
        53,
        53,
        10,
    ]
}

/// Appends the decimal digits of `n` to `out`.
fn push_decimal(out: &mut Vec<u8>, n: u32)
    ensures
        final(out)@ == old(out)@ + decimal(n as nat),
    decreases n,
{
    if n >= 10 {
        push_decimal(out, n / 10);
    }
    out.push(48 + (n % 10) as u8);
    assert(final(out)@ =~= old(out)@ + decimal(n as nat));
}

/// The header of a binary PPM image of the given size; the RGB bytes of the
/// image follow it in the file.
pub fn ppm_header(width: u32, height: u32) -> (h: Vec<u8>)
    ensures
        h@ == ppm_header_bytes(width, height),
{
    let mut h: Vec<u8> = Vec::new();
    h.push(80);
    h.push(54);
    h.push(10);
    push_decimal(&mut h, width);
    h.push(32);
    push_decimal(&mut h, height);
    h.push(10);
    h.push(50);
    h.push(53);
    h.push(53);
    h.push(10);
    assert(h@ =~= ppm_header_bytes(width, height));
    h
}

} // verus!
