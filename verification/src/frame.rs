//! Pixel formats of camera frames and the conversions between them.

use vstd::prelude::*;
use crate::text::str_eq;

verus! {

/// The byte layout of a frame buffer.
///
/// `RGB` and `BGR` hold three bytes per pixel in the named order; `YUYV` (4:2:2)
/// holds two pixels in four bytes: luma of the first pixel, shared blue
/// difference, luma of the second pixel, shared red difference.
#[derive(Clone, Copy, Debug, PartialEq, Eq, Structural)]
pub enum Colorspace {
    RGB,
    BGR,
    YUYV,
}

/// Refusal of a colour-space name that matches no variant.
#[derive(Clone, Copy, Debug, PartialEq, Eq, Structural)]
pub enum ParseError {
    VariantNotFound,
}

/// The name of each colour space, as it is written (and as a V4L2 fourcc names it).
pub open spec fn colorspace_name(c: Colorspace) -> Seq<char> {
    match c {
        Colorspace::RGB => "RGB"@,
        Colorspace::BGR => "BGR"@,
        Colorspace::YUYV => "YUYV"@,
    }
}

/// The conversions that exist: to the same space, between RGB and BGR, and from YUYV to BGR.
pub open spec fn conversion_supported(from: Colorspace, to: Colorspace) -> bool {
    ||| from == to
    ||| from == Colorspace::RGB && to == Colorspace::BGR
    ||| from == Colorspace::BGR && to == Colorspace::RGB
    ||| from == Colorspace::YUYV && to == Colorspace::BGR
}

/// A buffer of `len` bytes is made of whole units for the conversion:
/// whole 3-byte pixels when red and blue are swapped, whole 4-byte pairs when YUYV is expanded.
pub open spec fn buffer_fits(from: Colorspace, to: Colorspace, len: int) -> bool {
    if from == to {
        true
    } else if from == Colorspace::YUYV {
        len % 4 == 0
    } else {
        len % 3 == 0
    }
}

/// A rational value taken down to a whole number and held to the byte range
/// (values below zero give 0, above 255 give 255), as a cast to `u8` does.
pub open spec fn clamp_byte(x: int) -> u8 {
    if x < 0 {
        0
    } else if x > 255 {
        255
    } else {
        x as u8
    }
}

/// Blue of a YUV pixel: B = Y + 1.772 (U - 128).
pub open spec fn yuv_blue(y: u8, u: u8) -> u8 {
    clamp_byte((1000 * y + 1772 * (u - 128)) / 1000)
}

/// Green of a YUV pixel: G = Y - 0.34414 (U - 128) - 0.71414 (V - 128).
pub open spec fn yuv_green(y: u8, u: u8, v: u8) -> u8 {
    clamp_byte((100000 * y - 34414 * (u - 128) - 71414 * (v - 128)) / 100000)
}

/// Red of a YUV pixel: R = Y + 1.402 (V - 128).
pub open spec fn yuv_red(y: u8, v: u8) -> u8 {
    clamp_byte((1000 * y + 1402 * (v - 128)) / 1000)
}

/// The six BGR bytes of the two pixels that one YUYV group `[y1, u, y2, v]` holds.
pub open spec fn yuyv_pair_to_bgr(y1: u8, u: u8, y2: u8, v: u8) -> Seq<u8> {
    seq![
        yuv_blue(y1, u),
        yuv_green(y1, u, v),
        yuv_red(y1, v),
        yuv_blue(y2, u),
        yuv_green(y2, u, v),
        yuv_red(y2, v),
    ]
}

/// A YUYV buffer expanded to BGR, group of four bytes by group of four bytes.
pub open spec fn yuyv_bgr(buf: Seq<u8>) -> Seq<u8>
    decreases buf.len(),
{
    if buf.len() < 4 {
        seq![]
    } else {
        let n = buf.len();
        yuyv_bgr(buf.subrange(0, n - 4)) + yuyv_pair_to_bgr(buf[n - 4], buf[n - 3], buf[n - 2], buf[n - 1])
    }
}

/// A buffer of 3-byte pixels with the first and third byte of each pixel exchanged.
pub open spec fn red_blue_swapped(buf: Seq<u8>) -> Seq<u8> {
    Seq::new(
        buf.len(),
        |i: int|
            if i % 3 == 0 {
                buf[i + 2]
            } else if i % 3 == 2 {
                buf[i - 2]
            } else {
                buf[i]
            },
    )
}

/// The result of converting `buf` from one colour space to another.
pub open spec fn converted(from: Colorspace, buf: Seq<u8>, to: Colorspace) -> Seq<u8> {
    if from == to {
        buf
    } else if from == Colorspace::YUYV {
        yuyv_bgr(buf)
    } else {
        red_blue_swapped(buf)
    }
}

impl Colorspace {
    /// Reads a colour space from its exact name ("RGB", "BGR" or "YUYV").
    pub fn str(input: &str) -> (r: Result<Colorspace, ParseError>)
        ensures
            r matches Ok(c) ==> input@ == colorspace_name(c),
            r is Err <==> (forall|c: Colorspace| input@ != #[trigger] colorspace_name(c)),
    {
        proof {
            reveal_strlit("RGB");
            reveal_strlit("BGR");
            reveal_strlit("YUYV");
        }
        if str_eq(input, "RGB") {
            assert(input@ == colorspace_name(Colorspace::RGB));
            Ok(Colorspace::RGB)
        } else if str_eq(input, "BGR") {
            assert(input@ == colorspace_name(Colorspace::BGR));
            Ok(Colorspace::BGR)
        } else if str_eq(input, "YUYV") {
            assert(input@ == colorspace_name(Colorspace::YUYV));
            Ok(Colorspace::YUYV)
        } else {
            assert forall|c: Colorspace| input@ != #[trigger] colorspace_name(c) by {
                match c {
                    Colorspace::RGB => {},
                    Colorspace::BGR => {},
                    Colorspace::YUYV => {},
                }
            }
            Err(ParseError::VariantNotFound)
        }
    }

    /// The name of this colour space.
    pub fn as_str(&self) -> (s: &'static str)
        ensures
            s@ == colorspace_name(*self),
    {
        match self {
            Colorspace::RGB => "RGB",
            Colorspace::BGR => "BGR",
            Colorspace::YUYV => "YUYV",
        }
    }

    /// Whether a conversion from this colour space to `target` exists.
    pub fn supports_conversion(&self, target: Colorspace) -> (r: bool)
        ensures
            r == conversion_supported(*self, target),
    {
        match (self, target) {
            (Colorspace::RGB, Colorspace::RGB) => true,
            (Colorspace::BGR, Colorspace::BGR) => true,
            (Colorspace::YUYV, Colorspace::YUYV) => true,
            (Colorspace::RGB, Colorspace::BGR) => true,
            (Colorspace::BGR, Colorspace::RGB) => true,
            (Colorspace::YUYV, Colorspace::BGR) => true,
            _ => false,
        }
    }

    /// Converts a frame buffer from this colour space to `target`.
    ///
    /// A buffer already in the target space is returned as it is; RGB and BGR
    /// are turned into each other by exchanging red and blue; YUYV is expanded
    /// to BGR. There is no conversion into YUYV, nor from YUYV to RGB.
    pub fn convert_buf(&self, buf: Vec<u8>, target: Colorspace) -> (r: Vec<u8>)
        requires
            conversion_supported(*self, target),
            buffer_fits(*self, target, buf@.len() as int),
        ensures
            r@ == converted(*self, buf@, target),
    {
        match self {
            Colorspace::RGB => match target {
                Colorspace::RGB => buf,
                _ => {
                    let mut c = buf.clone();
                    rgb_bgr_swap(c.as_mut_slice());
                    c
                },
            },
            Colorspace::BGR => match target {
                Colorspace::BGR => buf,
                _ => {
                    let mut c = buf.clone();
                    rgb_bgr_swap(c.as_mut_slice());
                    c
                },
            },
            Colorspace::YUYV => match target {
                Colorspace::YUYV => buf,
                _ => yuyv_to_bgr(buf.as_slice()),
            },
        }
    }
}

/// Exchanges red and blue in a buffer of 3-byte pixels.
pub fn rgb_bgr_swap(buf: &mut [u8])
    requires
        old(buf)@.len() % 3 == 0,
    ensures
        final(buf)@ == red_blue_swapped(old(buf)@),
{
    let ghost orig = buf@;
    let n = buf.len();
    let mut i: usize = 0;
    while i < n
        invariant
            n == buf@.len(),
            n == orig.len(),
            n % 3 == 0,
            i % 3 == 0,
            i <= n,
            forall|j: int| 0 <= j < i ==> buf@[j] == #[trigger] red_blue_swapped(orig)[j],
            forall|j: int| i <= j < n ==> buf@[j] == orig[j],
        decreases n - i,
    {
        let temp = buf[i];
        let other = buf[i + 2];
        buf[i] = other;
        buf[i + 2] = temp;
        assert forall|j: int| 0 <= j < i + 3 implies buf@[j] == #[trigger] red_blue_swapped(orig)[j] by {
            if j >= i {
                assert(j == i || j == i + 1 || j == i + 2);
            }
        }
        i = i + 3;
    }
    assert(buf@ =~= red_blue_swapped(orig));
}

/// Truncates a non-negative numerator divided by `d`, held to the byte range.
fn scaled_byte(num: i32, d: i32) -> (r: u8)
    requires
        d > 0,
    ensures
        r == clamp_byte(num as int / d as int),
{
    if num < 0 {
        assert(num as int / d as int <= -1) by (nonlinear_arith)
            requires
                num < 0,
                d > 0,
        ;
        0
    } else {
        let q = (num as u32) / (d as u32);
        assert(q as int == num as int / d as int);
        if q > 255 {
            255
        } else {
            q as u8
        }
    }
}

/// Blue of a YUV pixel.
fn blue(y: u8, u: u8) -> (r: u8)
    ensures
        r == yuv_blue(y, u),
{
    scaled_byte(1000 * (y as i32) + 1772 * ((u as i32) - 128), 1000)
}

/// Green of a YUV pixel.
fn green(y: u8, u: u8, v: u8) -> (r: u8)
    ensures
        r == yuv_green(y, u, v),
{
    scaled_byte(100000 * (y as i32) - 34414 * ((u as i32) - 128) - 71414 * ((v as i32) - 128), 100000)
}

/// Red of a YUV pixel.
fn red(y: u8, v: u8) -> (r: u8)
    ensures
        r == yuv_red(y, v),
{
    scaled_byte(1000 * (y as i32) + 1402 * ((v as i32) - 128), 1000)
}

/// Appends the two BGR pixels of the YUYV group `[y1, u, y2, v]`.
pub(crate) fn push_pair(out: &mut Vec<u8>, y1: u8, u: u8, y2: u8, v: u8)
    ensures
        final(out)@ == old(out)@ + yuyv_pair_to_bgr(y1, u, y2, v),
{
    out.push(blue(y1, u));
    out.push(green(y1, u, v));
    out.push(red(y1, v));
    out.push(blue(y2, u));
    out.push(green(y2, u, v));
    out.push(red(y2, v));
    assert(final(out)@ =~= old(out)@ + yuyv_pair_to_bgr(y1, u, y2, v));
}

/// Expands a YUYV buffer to BGR: each group of four bytes `[y1, u, y2, v]`
/// becomes the six bytes of two BGR pixels, by the formulas
/// B = Y + 1.772 (U - 128), G = Y - 0.34414 (U - 128) - 0.71414 (V - 128),
/// R = Y + 1.402 (V - 128), each taken down to a whole number and held to 0..=255.
pub fn yuyv_to_bgr(buf: &[u8]) -> (r: Vec<u8>)
    requires
        buf@.len() % 4 == 0,
    ensures
        r@ == yuyv_bgr(buf@),
        r@.len() == buf@.len() / 4 * 6,
{
    let mut mat_buf: Vec<u8> = Vec::new();
    let n = buf.len();
    let mut i: usize = 0;
    while i < n
        invariant
            n == buf@.len(),
            i <= n,
            (n - i) % 4 == 0,
            mat_buf@ == yuyv_bgr(buf@.subrange(0, i as int)),
        decreases n - i,
    {
        assert(i + 4 <= n);
        push_pair(&mut mat_buf, buf[i], buf[i + 1], buf[i + 2], buf[i + 3]);
        proof {
            lemma_yuyv_bgr_step(buf@, i as int);
        }
        i = i + 4;
    }
    assert(buf@.subrange(0, n as int) =~= buf@);
    proof {
        lemma_yuyv_bgr_len(buf@);
    }
    mat_buf
}

/// Expanding one more group appends the six bytes of that group.
proof fn lemma_yuyv_bgr_step(buf: Seq<u8>, i: int)
    requires
        0 <= i,
        i + 4 <= buf.len(),
    ensures
        yuyv_bgr(buf.subrange(0, i + 4)) == yuyv_bgr(buf.subrange(0, i)) + yuyv_pair_to_bgr(
            buf[i],
            buf[i + 1],
            buf[i + 2],
            buf[i + 3],
        ),
{
    let next = buf.subrange(0, i + 4);
    assert(next.subrange(0, i) =~= buf.subrange(0, i));
}

/// Four bytes of YUYV give six bytes of BGR.
pub proof fn lemma_yuyv_bgr_len(buf: Seq<u8>)
    requires
        buf.len() % 4 == 0,
    ensures
        yuyv_bgr(buf).len() == buf.len() / 4 * 6,
    decreases buf.len(),
{
    if buf.len() >= 4 {
        let n = buf.len() as int;
        lemma_yuyv_bgr_len(buf.subrange(0, n - 4));
        assert((n - 4) / 4 * 6 + 6 == n / 4 * 6) by (nonlinear_arith)
            requires
                n % 4 == 0,
                n >= 4,
        ;
    }
}

/// Exchanging red and blue twice gives back the buffer.
pub proof fn lemma_red_blue_swap_involution(buf: Seq<u8>)
    requires
        buf.len() % 3 == 0,
    ensures
        red_blue_swapped(red_blue_swapped(buf)) == buf,
{
    let once = red_blue_swapped(buf);
    let twice = red_blue_swapped(once);
    assert forall|i: int| 0 <= i < buf.len() implies #[trigger] twice[i] == buf[i] by {
        if i % 3 == 0 {
            assert((i + 2) % 3 == 2);
        } else if i % 3 == 2 {
            assert((i - 2) % 3 == 0);
        }
    }
    assert(twice =~= buf);
}

/// Converting between RGB and BGR and back gives back the buffer.
pub proof fn lemma_convert_round_trip(from: Colorspace, to: Colorspace, buf: Seq<u8>)
    requires
        from == Colorspace::RGB && to == Colorspace::BGR || from == Colorspace::BGR && to
            == Colorspace::RGB,
        buffer_fits(from, to, buf.len() as int),
    ensures
        conversion_supported(to, from),
        buffer_fits(to, from, converted(from, buf, to).len() as int),
        converted(to, converted(from, buf, to), from) == buf,
{
    lemma_red_blue_swap_involution(buf);
}

/// Exchanging red and blue works pixel by pixel over the whole buffer: for
/// every pixel, its first and third bytes change places and its second stays.
pub proof fn lemma_red_blue_swap_per_pixel(buf: Seq<u8>)
    requires
        buf.len() % 3 == 0,
    ensures
        red_blue_swapped(buf).len() == buf.len(),
        forall|p: int|
            0 <= p && 3 * p + 2 < buf.len() ==> {
                &&& #[trigger] red_blue_swapped(buf)[3 * p] == buf[3 * p + 2]
                &&& red_blue_swapped(buf)[3 * p + 1] == buf[3 * p + 1]
                &&& red_blue_swapped(buf)[3 * p + 2] == buf[3 * p]
            },
{
    assert forall|p: int| 0 <= p && 3 * p + 2 < buf.len() implies {
        &&& #[trigger] red_blue_swapped(buf)[3 * p] == buf[3 * p + 2]
        &&& red_blue_swapped(buf)[3 * p + 1] == buf[3 * p + 1]
        &&& red_blue_swapped(buf)[3 * p + 2] == buf[3 * p]
    } by {
        assert((3 * p) % 3 == 0);
        assert((3 * p + 1) % 3 == 1);
        assert((3 * p + 2) % 3 == 2);
    }
}

/// Expanding YUYV to BGR works group by group: the output has six bytes for
/// each group of four, and group `k` of the input, `[y1, u, y2, v]`, gives
/// the pixels `(B, G, R)` of luma `y1` and then of luma `y2`, both with the
/// blue difference `u` and the red difference `v`, where
/// B = Y + 1.772 (U - 128), G = Y - 0.34414 (U - 128) - 0.71414 (V - 128),
/// R = Y + 1.402 (V - 128), each taken down to a whole number and held to 0..=255.
#[verifier::rlimit(40)]
pub proof fn lemma_yuyv_bgr_per_group(buf: Seq<u8>)
    requires
        buf.len() % 4 == 0,
    ensures
        yuyv_bgr(buf).len() == buf.len() / 4 * 6,
        forall|k: int, j: int|
            0 <= k && 4 * k + 3 < buf.len() && 0 <= j < 2 ==> {
                let y = #[trigger] buf[4 * k + 2 * j];
                let u = buf[4 * k + 1];
                let v = buf[4 * k + 3];
                let b = (1000 * y + 1772 * (u - 128)) / 1000;
                let g = (100000 * y - 34414 * (u - 128) - 71414 * (v - 128)) / 100000;
                let r = (1000 * y + 1402 * (v - 128)) / 1000;
                &&& #[trigger] yuyv_bgr(buf)[6 * k + 3 * j] == (if b < 0 { 0 } else if b > 255 { 255 } else { b })
                &&& yuyv_bgr(buf)[6 * k + 3 * j + 1] == (if g < 0 { 0 } else if g > 255 { 255 } else { g })
                &&& yuyv_bgr(buf)[6 * k + 3 * j + 2] == (if r < 0 { 0 } else if r > 255 { 255 } else { r })
            },
    decreases buf.len(),
{
    lemma_yuyv_bgr_len(buf);
    if buf.len() >= 4 {
        let n = buf.len() as int;
        let pre = buf.subrange(0, n - 4);
        lemma_yuyv_bgr_per_group(pre);
        lemma_yuyv_bgr_len(pre);
        let out = yuyv_bgr(buf);
        let m = (n - 4) / 4 * 6;
        assert(out == yuyv_bgr(pre) + yuyv_pair_to_bgr(buf[n - 4], buf[n - 3], buf[n - 2], buf[n - 1]));
        assert(4 * ((n - 4) / 4) == n - 4);
        assert forall|k: int, j: int|
            0 <= k && 4 * k + 3 < buf.len() && 0 <= j < 2 implies {
                let y = #[trigger] buf[4 * k + 2 * j];
                let u = buf[4 * k + 1];
                let v = buf[4 * k + 3];
                let b = (1000 * y + 1772 * (u - 128)) / 1000;
                let g = (100000 * y - 34414 * (u - 128) - 71414 * (v - 128)) / 100000;
                let r = (1000 * y + 1402 * (v - 128)) / 1000;
                &&& #[trigger] yuyv_bgr(buf)[6 * k + 3 * j] == (if b < 0 { 0 } else if b > 255 { 255 } else { b })
                &&& yuyv_bgr(buf)[6 * k + 3 * j + 1] == (if g < 0 { 0 } else if g > 255 { 255 } else { g })
                &&& yuyv_bgr(buf)[6 * k + 3 * j + 2] == (if r < 0 { 0 } else if r > 255 { 255 } else { r })
            } by {
            if 4 * k + 3 < n - 4 {
                assert(pre[4 * k + 2 * j] == buf[4 * k + 2 * j]);
                assert(pre[4 * k + 1] == buf[4 * k + 1]);
                assert(pre[4 * k + 3] == buf[4 * k + 3]);
                assert(6 * k + 3 * j + 2 < m);
                assert(yuyv_bgr(pre)[6 * k + 3 * j] == out[6 * k + 3 * j]);
                assert(yuyv_bgr(pre)[6 * k + 3 * j + 1] == out[6 * k + 3 * j + 1]);
                assert(yuyv_bgr(pre)[6 * k + 3 * j + 2] == out[6 * k + 3 * j + 2]);
            } else {
                assert(4 * k == n - 4);
                assert(6 * k == m);
                assert(out[6 * k + 3 * j] == yuyv_pair_to_bgr(buf[n - 4], buf[n - 3], buf[n - 2], buf[n - 1])[3 * j]);
                assert(out[6 * k + 3 * j + 1] == yuyv_pair_to_bgr(buf[n - 4], buf[n - 3], buf[n - 2], buf[n - 1])[3 * j + 1]);
                assert(out[6 * k + 3 * j + 2] == yuyv_pair_to_bgr(buf[n - 4], buf[n - 3], buf[n - 2], buf[n - 1])[3 * j + 2]);
            }
        }
    }
}

/// Converting YUYV to BGR is the group-by-group expansion of the same buffer,
/// with the blue difference taken from the second byte of each group and the
/// red difference from the fourth.
pub proof fn lemma_convert_yuyv_is_expansion(buf: Seq<u8>)
    requires
        buf.len() % 4 == 0,
    ensures
        conversion_supported(Colorspace::YUYV, Colorspace::BGR),
        converted(Colorspace::YUYV, buf, Colorspace::BGR) == yuyv_bgr(buf),
        converted(Colorspace::YUYV, buf, Colorspace::BGR).len() == buf.len() / 4 * 6,
        forall|k: int|
            0 <= k && 4 * k + 3 < buf.len() ==> {
                let b0 = (1000 * buf[4 * k] + 1772 * (buf[4 * k + 1] - 128)) / 1000;
                let r0 = (1000 * buf[4 * k] + 1402 * (buf[4 * k + 3] - 128)) / 1000;
                &&& #[trigger] converted(Colorspace::YUYV, buf, Colorspace::BGR)[6 * k] == (if b0 < 0 { 0 } else if b0 > 255 { 255 } else { b0 })
                &&& converted(Colorspace::YUYV, buf, Colorspace::BGR)[6 * k + 2] == (if r0 < 0 { 0 } else if r0 > 255 { 255 } else { r0 })
            },
{
    assert(converted(Colorspace::YUYV, buf, Colorspace::BGR) == yuyv_bgr(buf));
    lemma_yuyv_bgr_per_group(buf);
    assert forall|k: int| 0 <= k && 4 * k + 3 < buf.len() implies {
        let b0 = (1000 * buf[4 * k] + 1772 * (buf[4 * k + 1] - 128)) / 1000;
        let r0 = (1000 * buf[4 * k] + 1402 * (buf[4 * k + 3] - 128)) / 1000;
        &&& #[trigger] converted(Colorspace::YUYV, buf, Colorspace::BGR)[6 * k] == (if b0 < 0 { 0 } else if b0 > 255 { 255 } else { b0 })
        &&& converted(Colorspace::YUYV, buf, Colorspace::BGR)[6 * k + 2] == (if r0 < 0 { 0 } else if r0 > 255 { 255 } else { r0 })
    } by {
        assert(buf[4 * k + 2 * 0] == buf[4 * k]);
        assert(6 * k + 3 * 0 == 6 * k);
    }
}

} // verus!
