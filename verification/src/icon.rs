//! The inverted rendering of an icon.
//!
//! A pixel is 32 bits wide: alpha in the top byte, then red, green and blue.
//! Inverting turns every colour bit over and leaves alpha alone.

use vstd::prelude::*;

verus! {

/// The bits of a pixel that hold its colour.
pub const COLOUR_BITS: u32 = 0x00FF_FFFF;

/// The bits of a pixel that hold its alpha.
pub const ALPHA_BITS: u32 = 0xFF00_0000;

/// A pixel with its colours inverted.
pub open spec fn inverted(pixel: u32) -> u32 {
    pixel ^ COLOUR_BITS
}

/// The number of pixels of a bitmap, or none where a side is not positive
/// or the number does not fit.
pub open spec fn pixels_in(width: i32, height: i32) -> Option<usize> {
    if width <= 0 || height <= 0 || width * height > usize::MAX {
        None
    } else {
        Some((width * height) as usize)
    }
}

/// Inverts the colours of one pixel.
pub fn invert_pixel(pixel: u32) -> (result: u32)
    ensures
        result == inverted(pixel),
{
    pixel ^ COLOUR_BITS
}

/// Inverts the colours of every pixel.
pub fn invert_pixels(pixels: &mut Vec<u32>)
    ensures
        final(pixels)@.len() == old(pixels)@.len(),
        forall|i: int| 0 <= i < old(pixels)@.len() ==> final(pixels)@[i] == inverted(old(pixels)@[i]),
{
    let ghost start = pixels@;
    let mut i: usize = 0;
    while i < pixels.len()
        invariant
            i <= pixels@.len(),
            pixels@.len() == start.len(),
            forall|k: int| 0 <= k < i ==> pixels@[k] == inverted(start[k]),
            forall|k: int| i <= k < start.len() ==> pixels@[k] == start[k],
        decreases pixels@.len() - i,
    {
        let pixel = pixels[i];
        pixels.set(i, pixel ^ COLOUR_BITS);
        i = i + 1;
    }
}

/// The number of pixels of a bitmap of the given size.
pub fn pixel_count(width: i32, height: i32) -> (count: Option<usize>)
    ensures
        count == pixels_in(width, height),
{
    if width <= 0 || height <= 0 {
        return None;
    }
    let wide: u64 = width as u64;
    let high: u64 = height as u64;
    assert(wide * high <= 0x7FFF_FFFF * 0x7FFF_FFFF) by (nonlinear_arith)
        requires
            0 < wide <= 0x7FFF_FFFF,
            0 < high <= 0x7FFF_FFFF,
    ;
    let total: u64 = wide * high;
    if total > usize::MAX as u64 {
        None
    } else {
        Some(total as usize)
    }
}

/// Inverting leaves alpha alone, turns every colour bit over, and undoes
/// itself.
pub proof fn lemma_inversion(pixel: u32)
    ensures
        inverted(pixel) & ALPHA_BITS == pixel & ALPHA_BITS,
        inverted(pixel) & COLOUR_BITS == !pixel & COLOUR_BITS,
        inverted(inverted(pixel)) == pixel,
{
    assert((pixel ^ 0x00FF_FFFFu32) & 0xFF00_0000u32 == pixel & 0xFF00_0000u32) by (bit_vector);
    assert((pixel ^ 0x00FF_FFFFu32) & 0x00FF_FFFFu32 == !pixel & 0x00FF_FFFFu32) by (bit_vector);
    assert((pixel ^ 0x00FF_FFFFu32) ^ 0x00FF_FFFFu32 == pixel) by (bit_vector);
}

} // verus!
