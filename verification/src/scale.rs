//! Resampling of a packed RGB frame to the terminal grid.
//!
//! The Lanczos (3-lobe) resampler of the `resize` crate does the numeric
//! work; its output is a pure function of the source image and the four
//! dimensions, named here by `lanczos3_rgb`. The verified code allocates the
//! destination buffer, so the output length is proved, not assumed.

use rgb::FromSlice;
use vstd::prelude::*;

verus! {

/// The image that the 3-lobe Lanczos resampler produces from `src` (packed
/// RGB, `src_w * src_h * 3` bytes) at `dst_w * dst_h` pixels. The resampling
/// depends on its arguments alone.
pub uninterp spec fn lanczos3_rgb(src: Seq<u8>, src_w: int, src_h: int, dst_w: int, dst_h: int) -> Seq<u8>;

/// Relies on `resize::new` with `Pixel::RGB8` and `Type::Lanczos3`, and on
/// `resize::Resizer::resize`: with non-zero dimensions, a source slice of
/// `src_w * src_h` pixels and a destination slice of exactly `dst_w * dst_h`
/// pixels, the only failure is allocation exhaustion, reported before any
/// write to `dst`; on success `dst` is filled entirely with the resampled
/// image, a function of the arguments alone. The resampler sizes its work
/// chunks by the products of the destination width with each height and with
/// itself, so those products must fit in `usize` or the callee's arithmetic
/// overflows instead of returning.
#[verifier::external_body]
fn lanczos3_fill(src: &Vec<u8>, src_w: usize, src_h: usize, dst_w: usize, dst_h: usize, dst: &mut Vec<u8>) -> (ok: bool)
    requires
        src_w >= 1,
        src_h >= 1,
        dst_w >= 1,
        dst_h >= 1,
        src@.len() == src_w * src_h * 3,
        old(dst)@.len() == dst_w * dst_h * 3,
        dst_w * src_h <= usize::MAX,
        dst_w * dst_w <= usize::MAX,
    ensures
        final(dst)@.len() == old(dst)@.len(),
        ok ==> final(dst)@ == lanczos3_rgb(src@, src_w as int, src_h as int, dst_w as int, dst_h as int),
        !ok ==> final(dst)@ == old(dst)@,
{
    match resize::new(src_w, src_h, dst_w, dst_h, resize::Pixel::RGB8, resize::Type::Lanczos3) {
        Ok(mut resizer) => resizer.resize(src.as_rgb(), dst.as_rgb_mut()).is_ok(),
        Err(_) => false,
    }
}

/// Resample a packed RGB frame to the destination dimensions.
///
/// The returned buffer always holds exactly `dst_w * dst_h * 3` bytes and is
/// the Lanczos resampling of the source; `None` only when the resampler runs
/// out of memory.
pub fn resize_frame(src: &Vec<u8>, src_w: usize, src_h: usize, dst_w: usize, dst_h: usize) -> (out: Option<Vec<u8>>)
    requires
        src_w >= 1,
        src_h >= 1,
        dst_w >= 1,
        dst_h >= 1,
        src@.len() == src_w * src_h * 3,
        dst_w * dst_h * 3 <= usize::MAX,
        dst_w * src_h <= usize::MAX,
        dst_w * dst_w <= usize::MAX,
    ensures
        out is Some ==> out->Some_0@.len() == dst_w * dst_h * 3,
        out is Some ==> out->Some_0@ == lanczos3_rgb(src@, src_w as int, src_h as int, dst_w as int, dst_h as int),
{
    let total: usize = dst_w * dst_h * 3;
    let mut dst: Vec<u8> = Vec::new();
    let mut i: usize = 0;
    while i < total
        invariant
            i <= total,
            dst@.len() == i,
        decreases total - i,
    {
        dst.push(0);
        i += 1;
    }
    if lanczos3_fill(src, src_w, src_h, dst_w, dst_h, &mut dst) {
        Some(dst)
    } else {
        None
    }
}

} // verus!
