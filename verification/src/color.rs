//! Conversion of packed 4:2:2 luma/chroma frames to packed RGB.
//!
//! The input buffer is grouped in units of 4 bytes `(Y, U, Y', V)`: two
//! horizontally adjacent pixels sharing one pair of chroma samples. Only the
//! first luma sample of each group is used, so each group yields exactly one
//! RGB triple and the converted image has half the nominal capture width.
//!
//! The BT.601 full-range coefficients are exact decimal fractions, so the
//! formula is computed in integer thousandths: no rounding error enters
//! beyond the final truncation toward zero. Out-of-range channels are
//! clamped to `0..=255` before truncation, the behaviour of a saturating
//! narrowing cast.

use vstd::prelude::*;

verus! {

/// Red-channel numerator in thousandths: `1.164 (Y - 16) + 1.596 (V - 128)`.
pub open spec fn red_num(y: int, v: int) -> int {
    1164 * (y - 16) + 1596 * (v - 128)
}

/// Green-channel numerator in thousandths:
/// `1.164 (Y - 16) - 0.813 (V - 128) - 0.391 (U - 128)`.
pub open spec fn green_num(y: int, u: int, v: int) -> int {
    1164 * (y - 16) - 813 * (v - 128) - 391 * (u - 128)
}

/// Blue-channel numerator in thousandths: `1.164 (Y - 16) + 2.018 (U - 128)`.
pub open spec fn blue_num(y: int, u: int) -> int {
    1164 * (y - 16) + 2018 * (u - 128)
}

/// A numerator in thousandths reduced to one byte: clamped to `0..=255`
/// with the fractional part truncated toward zero. For a non-negative
/// numerator, truncation toward zero and flooring agree.
pub open spec fn spec_channel(num: int) -> int {
    if num < 0 {
        0
    } else if num / 1000 > 255 {
        255
    } else {
        num / 1000
    }
}

/// The RGB triple produced from one `(Y, U, V)` sample.
pub open spec fn spec_rgb(y: int, u: int, v: int) -> (int, int, int) {
    (
        spec_channel(red_num(y, v)),
        spec_channel(green_num(y, u, v)),
        spec_channel(blue_num(y, u)),
    )
}

/// Byte `i` of the converted buffer: pixel `i / 3` is taken from input group
/// `4 * (i / 3)`, whose bytes are `(Y, U, Y', V)`; `i % 3` selects the red,
/// green or blue channel.
pub open spec fn conv_byte(raw: Seq<u8>, i: int) -> u8 {
    let y = raw[4 * (i / 3)] as int;
    let u = raw[4 * (i / 3) + 1] as int;
    let v = raw[4 * (i / 3) + 3] as int;
    if i % 3 == 0 {
        spec_channel(red_num(y, v)) as u8
    } else if i % 3 == 1 {
        spec_channel(green_num(y, u, v)) as u8
    } else {
        spec_channel(blue_num(y, u)) as u8
    }
}

/// The full converted buffer: one 3-byte RGB triple per 4-byte input group.
pub open spec fn spec_convert(raw: Seq<u8>) -> Seq<u8>
    recommends
        raw.len() % 4 == 0,
{
    Seq::new((raw.len() / 4 * 3) as nat, |i: int| conv_byte(raw, i))
}

/// Reduce a fixed-point numerator to a byte, exactly as `spec_channel` says.
fn channel(num: i32) -> (r: u8)
    ensures
        r as int == spec_channel(num as int),
{
    if num < 0 {
        0u8
    } else {
        let q: u32 = (num as u32) / 1000;
        if q > 255 {
            255u8
        } else {
            q as u8
        }
    }
}

/// Convert one `(Y, U, V)` sample to its RGB triple.
pub fn yuv_to_rgb(y: u8, u: u8, v: u8) -> (rgb: (u8, u8, u8))
    ensures
        (rgb.0 as int, rgb.1 as int, rgb.2 as int) == spec_rgb(y as int, u as int, v as int),
{
    let luma: i32 = 1164 * (y as i32 - 16);
    let r = channel(luma + 1596 * (v as i32 - 128));
    let g = channel(luma - 813 * (v as i32 - 128) - 391 * (u as i32 - 128));
    let b = channel(luma + 2018 * (u as i32 - 128));
    (r, g, b)
}

/// Convert a raw 4:2:2 buffer to packed RGB.
///
/// A length that is not a multiple of 4 is malformed device output and is
/// rejected outright; nothing is silently truncated. Otherwise every 4-byte
/// group becomes exactly one RGB triple, so the output holds
/// `raw.len() / 4 * 3` bytes.
#[verifier::loop_isolation(false)]
pub fn convert(raw: &Vec<u8>) -> (out: Option<Vec<u8>>)
    ensures
        out is Some <==> raw@.len() % 4 == 0,
        out is Some ==> out->Some_0@ == spec_convert(raw@),
        out is Some ==> out->Some_0@.len() == raw@.len() / 4 * 3,
{
    if raw.len() % 4 != 0 {
        return None;
    }
    let n = raw.len() / 4;
    assert(raw@.len() == 4 * n);
    let mut out: Vec<u8> = Vec::new();
    let mut g: usize = 0;
    while g < n
        invariant
            raw@.len() % 4 == 0,
            n == raw@.len() / 4,
            g <= n,
            out@.len() == 3 * g,
            forall|i: int| 0 <= i < 3 * g ==> out@[i] == conv_byte(raw@, i),
        decreases n - g,
    {
        let (r, gr, b) = yuv_to_rgb(raw[4 * g], raw[4 * g + 1], raw[4 * g + 3]);
        out.push(r);
        out.push(gr);
        out.push(b);
        g += 1;
    }
    proof {
        assert(out@ =~= spec_convert(raw@));
    }
    Some(out)
}

/// A gray sample — both chroma bytes at their 128 midpoint — yields equal
/// red, green and blue channels, whatever the luma: every chroma term of the
/// formula vanishes, leaving the same luma numerator in all three channels.
pub proof fn lemma_gray_is_monochrome(y: int)
    ensures
        spec_channel(red_num(y, 128)) == spec_channel(green_num(y, 128, 128)),
        spec_channel(green_num(y, 128, 128)) == spec_channel(blue_num(y, 128)),
{
}

/// A whole frame whose chroma bytes are all 128 converts to a monochrome
/// image: in each output triple the three channel bytes are equal.
pub proof fn lemma_gray_buffer_monochrome(raw: Seq<u8>, p: int)
    requires
        raw.len() % 4 == 0,
        0 <= p < raw.len() / 4,
        raw[4 * p + 1] == 128,
        raw[4 * p + 3] == 128,
    ensures
        spec_convert(raw)[3 * p] == spec_convert(raw)[3 * p + 1],
        spec_convert(raw)[3 * p] == spec_convert(raw)[3 * p + 2],
{
    assert((3 * p) / 3 == p && (3 * p) % 3 == 0);
    assert((3 * p + 1) / 3 == p && (3 * p + 1) % 3 == 1);
    assert((3 * p + 2) / 3 == p && (3 * p + 2) % 3 == 2);
}

/// A raw frame of an even capture width `w` (two bytes per pixel, one luma
/// pair per group) always has a length divisible by 4, and converts to
/// exactly the RGB buffer of a `w / 2` by `h` image: downstream resizing
/// compensates for the dropped luma sample by treating the converted frame
/// as half the nominal capture width.
pub proof fn lemma_converted_length_is_half_width(w: int, h: int, len: int)
    requires
        w >= 0,
        h >= 0,
        w % 2 == 0,
        len == w * h * 2,
    ensures
        len % 4 == 0,
        len / 4 * 3 == (w / 2) * h * 3,
{
    let k = w / 2;
    assert(len == 4 * (k * h)) by (nonlinear_arith)
        requires
            len == w * h * 2,
            w == 2 * k,
    ;
}

} // verus!
