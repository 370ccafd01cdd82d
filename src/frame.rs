use vstd::prelude::*;
use vstd::arithmetic::div_mod::{lemma_fundamental_div_mod, lemma_fundamental_div_mod_converse};
use vstd::arithmetic::mul::lemma_mul_inequality;

verus! {

/// The flat offset of the pixel at column `x`, row `y` in a row-major image
/// that is `width` pixels wide.
pub open spec fn pixel_offset(width: int, x: int, y: int) -> int {
    x + width * y
}

/// Every element of `pixels` holds `color`.
pub open spec fn is_solid(pixels: Seq<u32>, color: u32) -> bool {
    forall|i: int| 0 <= i < pixels.len() ==> #[trigger] pixels[i] == color
}

/// Writes `color` at column `x`, row `y` of a row-major image `width` pixels wide.
pub fn put_pixel(buffer: &mut [u32], width: u32, x: usize, y: usize, color: u32)
    requires
        pixel_offset(width as int, x as int, y as int) < old(buffer)@.len(),
    ensures
        final(buffer)@ == old(buffer)@.update(pixel_offset(width as int, x as int, y as int), color),
{
    assert(buffer@.len() <= usize::MAX) by {
        vstd::slice::axiom_spec_len(buffer);
    }
    buffer[x + width as usize * y] = color;
}

/// The flat offset of column `x`, row `y` gives back `x` as its remainder and
/// `y` as its quotient by `width`.
proof fn lemma_offset_coordinates(width: int, x: int, y: int)
    requires
        0 <= x < width,
        0 <= y,
    ensures
        pixel_offset(width, x, y) % width == x,
        pixel_offset(width, x, y) / width == y,
{
    assert(pixel_offset(width, x, y) == y * width + x) by (nonlinear_arith);
    lemma_fundamental_div_mod_converse(pixel_offset(width, x, y), width, y, x);
}

/// Fills a `width` by `height` image with `color`, column by column.
pub fn fill_solid(buffer: &mut [u32], width: u32, height: u32, color: u32)
    requires
        old(buffer)@.len() == width as int * height as int,
    ensures
        final(buffer)@.len() == old(buffer)@.len(),
        is_solid(final(buffer)@, color),
{
    let ghost len = buffer@.len();
    let w = width as usize;
    let h = height as usize;
    let mut x: usize = 0;
    while x < w
        invariant
            w == width,
            h == height,
            buffer@.len() == len,
            len == w as int * h as int,
            x <= w,
            forall|i: int|
                0 <= i < len && #[trigger] (i % (w as int)) < x ==> buffer@[i] == color,
        decreases w - x,
    {
        let mut y: usize = 0;
        while y < h
            invariant
                w == width,
                h == height,
                buffer@.len() == len,
                len == w as int * h as int,
                x < w,
                y <= h,
                forall|i: int|
                    0 <= i < len && (#[trigger] (i % (w as int)) < x || (i % (w as int) == x && i
                        / (w as int) < y)) ==> buffer@[i] == color,
            decreases h - y,
        {
            let ghost before = buffer@;
            let ghost at = pixel_offset(w as int, x as int, y as int);
            proof {
                lemma_offset_coordinates(w as int, x as int, y as int);
                lemma_mul_inequality(y as int + 1, h as int, w as int);
                assert(at < len) by (nonlinear_arith)
                    requires
                        at == x + w * y,
                        x < w,
                        (y + 1) * w <= h * w,
                        len == w * h,
                ;
            }
            put_pixel(buffer, width, x, y, color);
            assert forall|i: int|
                0 <= i < len && (#[trigger] (i % (w as int)) < x || (i % (w as int) == x && i
                    / (w as int) < y + 1)) implies buffer@[i] == color by {
                if i != at {
                    assert(buffer@[i] == before[i]);
                    if i % (w as int) == x && i / (w as int) == y {
                        lemma_fundamental_div_mod(i, w as int);
                    }
                }
            }
            y = y + 1;
        }
        assert forall|i: int| 0 <= i < len && #[trigger] (i % (w as int)) < x + 1 implies buffer@[i]
            == color by {
            if i % (w as int) == x {
                lemma_fundamental_div_mod(i, w as int);
                assert(i / (w as int) < h) by (nonlinear_arith)
                    requires
                        i == (w as int) * (i / (w as int)) + i % (w as int),
                        0 <= i % (w as int),
                        i < (w as int) * (h as int),
                        w > 0,
                ;
            }
        }
        x = x + 1;
    }
    assert forall|i: int| 0 <= i < buffer@.len() implies #[trigger] buffer@[i] == color by {
        assert(i % (w as int) < w) by {
            if w > 0 {
                lemma_fundamental_div_mod(i, w as int);
            }
        }
    }
}

} // verus!
