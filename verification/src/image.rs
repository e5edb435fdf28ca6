//! Row-major pixel-buffer layout.
//!
//! An image is a flat byte buffer holding `bpp` bytes per pixel (three here:
//! red, green, blue), rows from top to bottom, pixels left to right within a
//! row.  The functions in this module place quantized colors into such a
//! buffer; turning a shading value in `[0, 1]` into a byte is the caller's
//! business.

use vstd::prelude::*;

verus! {

/// A quantized color: one byte per channel.
#[derive(Clone, Copy, PartialEq, Eq, Structural, Debug)]
pub struct Rgb {
    pub r: u8,
    pub g: u8,
    pub b: u8,
}

/// Byte offset of pixel `(x, y)` in a row-major buffer that is `width` pixels
/// wide with `bpp` bytes per pixel.
pub fn get_pixel_index(x: i32, y: i32, width: i32, bpp: i32) -> (idx: usize)
    requires
        0 <= x,
        0 <= y,
        0 <= width,
        0 <= bpp,
        x * bpp <= i32::MAX,
        y * bpp <= i32::MAX,
        y * bpp * width <= i32::MAX,
        x * bpp + y * bpp * width <= i32::MAX,
    ensures
        idx == x * bpp + y * bpp * width,
{
    proof {
        assert(0 <= x * bpp && 0 <= y * bpp && 0 <= y * bpp * width) by (nonlinear_arith)
            requires
                0 <= x && 0 <= y && 0 <= width && 0 <= bpp,
        ;
    }
    (x * bpp + y * bpp * width) as usize
}

/// Writes one pixel's three channel bytes at `index` into a flat buffer,
/// leaving every other byte as it was.
pub fn set_pixel(index: usize, color: Rgb, pixels: &mut Vec<u8>)
    requires
        index + 2 < old(pixels)@.len(),
    ensures
        final(pixels)@.len() == old(pixels)@.len(),
        final(pixels)@[index as int] == color.r,
        final(pixels)@[index as int + 1] == color.g,
        final(pixels)@[index as int + 2] == color.b,
        forall|k: int|
            0 <= k < old(pixels)@.len() && !(index <= k <= index + 2)
                ==> final(pixels)@[k] == old(pixels)@[k],
{
    let len = pixels.len();
    assert(index + 2 < len);
    pixels.set(index, color.r);
    pixels.set(index + 1, color.g);
    pixels.set(index + 2, color.b);
}

/// Lays a scanline-ordered sequence of colors out as a row-major byte buffer,
/// three bytes per pixel.
///
/// `colors[y * width + x]` is the color of the pixel at column `x` of row `y`,
/// rows counted from the top of the frame; its channel bytes land at the
/// offset `get_pixel_index` gives for `(x, y)`.
pub fn fill_pixels(colors: &Vec<Rgb>, width: usize, height: usize) -> (pixels: Vec<u8>)
    requires
        colors@.len() == width * height,
        width * height * 3 <= usize::MAX,
    ensures
        pixels@.len() == width * height * 3,
        forall|p: int|
            0 <= p < width * height ==> {
                &&& pixels@[3 * p] == colors@[p].r
                &&& pixels@[3 * p + 1] == colors@[p].g
                &&& pixels@[3 * p + 2] == colors@[p].b
            },
{
    let n = width * height;
    let mut pixels: Vec<u8> = Vec::new();
    while pixels.len() < n * 3
        invariant
            n * 3 <= usize::MAX,
            pixels@.len() <= n * 3,
        decreases n * 3 - pixels@.len(),
    {
        pixels.push(0);
    }
    let mut y: usize = 0;
    while y < height
        invariant
            y <= height,
            n == width * height,
            n * 3 <= usize::MAX,
            colors@.len() == n,
            pixels@.len() == n * 3,
            y * width <= n,
            forall|p: int|
                0 <= p < y * width ==> {
                    &&& pixels@[3 * p] == colors@[p].r
                    &&& pixels@[3 * p + 1] == colors@[p].g
                    &&& pixels@[3 * p + 2] == colors@[p].b
                },
        decreases height - y,
    {
        let mut x: usize = 0;
        while x < width
            invariant
                x <= width,
                y < height,
                n == width * height,
                n * 3 <= usize::MAX,
                colors@.len() == n,
                pixels@.len() == n * 3,
                y * width + x <= n,
                forall|p: int|
                    0 <= p < y * width + x ==> {
                        &&& pixels@[3 * p] == colors@[p].r
                        &&& pixels@[3 * p + 1] == colors@[p].g
                        &&& pixels@[3 * p + 2] == colors@[p].b
                    },
            decreases width - x,
        {
            proof {
                assert(y * width + x < n) by (nonlinear_arith)
                    requires
                        x < width && y < height && n == width * height,
                ;
            }
            let p = y * width + x;
            let idx = 3 * p;
            set_pixel(idx, colors[p], &mut pixels);
            x = x + 1;
        }
        proof {
            assert((y + 1) * width == y * width + width) by (nonlinear_arith);
            assert((y + 1) * width <= n) by (nonlinear_arith)
                requires
                    y < height && n == width * height,
            ;
        }
        y = y + 1;
    }
    proof {
        assert(y * width == n) by (nonlinear_arith)
            requires
                y == height && n == width * height,
        ;
    }
    pixels
}

/// The two ways this module addresses a pixel agree: the byte range that
/// `fill_pixels` gives pixel `(x, y)` — three bytes from `3 * (y * width + x)`
/// — starts exactly at the offset `get_pixel_index(x, y, width, 3)` computes.
pub proof fn lemma_pixel_offset(x: int, y: int, width: int)
    ensures
        3 * (y * width + x) == x * 3 + y * 3 * width,
{
    assert(3 * (y * width + x) == x * 3 + y * 3 * width) by (nonlinear_arith);
}

} // verus!
