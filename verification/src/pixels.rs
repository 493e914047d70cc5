//! Pixel-buffer editor: draws an opaque red square marker over the top-left
//! corner of a decoded RGBA image, clipped to the image bounds.

use vstd::prelude::*;
use vstd::arithmetic::div_mod::lemma_fundamental_div_mod_converse;

verus! {

/// Side length, in pixels, of the square marker drawn in the top-left corner.
pub const MARKER_SIDE: usize = 50;

/// Number of bytes per pixel (R, G, B, A).
pub const BYTES_PER_PIXEL: usize = 4;

/// Channel `c` (0 = R, 1 = G, 2 = B, 3 = A) of the marker color (255, 0, 0, 255).
pub open spec fn marker_channel(c: int) -> u8 {
    if c == 0 || c == 3 {
        255
    } else {
        0
    }
}

/// Whether pixel (x, y) of a `width` x `height` image lies inside the marker
/// rectangle, i.e. the top-left `min(MARKER_SIDE, width)` x
/// `min(MARKER_SIDE, height)` region.
pub open spec fn in_marker(x: int, y: int, width: int, height: int) -> bool {
    &&& 0 <= x < width
    &&& 0 <= y < height
    &&& x < MARKER_SIDE
    &&& y < MARKER_SIDE
}

/// Byte `i` of the annotated image whose original bytes are `s`, laid out
/// row-major with `BYTES_PER_PIXEL` bytes per pixel.
pub open spec fn annotated_byte(s: Seq<u8>, width: int, i: int) -> u8 {
    let p = i / (BYTES_PER_PIXEL as int);
    let x = p % width;
    let y = p / width;
    if x < MARKER_SIDE && y < MARKER_SIDE {
        marker_channel(i % (BYTES_PER_PIXEL as int))
    } else {
        s[i]
    }
}

/// The annotated image as a whole: every byte of a marker-rectangle pixel is
/// the marker color's channel value, every other byte is unchanged.
pub open spec fn annotated(s: Seq<u8>, width: int) -> Seq<u8> {
    Seq::new(s.len(), |i: int| annotated_byte(s, width, i))
}

/// Overwrites every pixel of the top-left marker rectangle with the marker
/// color (255, 0, 0, 255), clipping to the image bounds, and leaves every
/// other pixel unchanged.
pub fn annotate(pixels: &mut Vec<u8>, width: usize, height: usize)
    requires
        old(pixels).len() == width * height * BYTES_PER_PIXEL,
    ensures
        final(pixels)@ == annotated(old(pixels)@, width as int),
{
    let ghost s0 = pixels@;
    let len = pixels.len();
    let mut i: usize = 0;
    while i < len
        invariant
            i <= len,
            len == pixels.len(),
            pixels.len() == width * height * BYTES_PER_PIXEL,
            forall|j: int| 0 <= j < i ==> pixels@[j] == annotated_byte(s0, width as int, j),
            forall|j: int| i <= j < len ==> pixels@[j] == s0[j],
        decreases len - i,
    {
        proof {
            assert(width > 0) by (nonlinear_arith)
                requires
                    (i as int) < width * height * (BYTES_PER_PIXEL as int),
                    0 <= i,
                    0 <= width,
                    0 <= height,
            ;
        }
        let p: usize = i / BYTES_PER_PIXEL;
        let x: usize = p % width;
        let y: usize = p / width;
        if x < MARKER_SIDE && y < MARKER_SIDE {
            let c: usize = i % BYTES_PER_PIXEL;
            let v: u8 = if c == 0 || c == 3 {
                255
            } else {
                0
            };
            pixels.set(i, v);
        }
        i = i + 1;
    }
    proof {
        assert(pixels@ =~= annotated(s0, width as int));
    }
}

/// Law: `annotate` overwrites exactly the marker rectangle. For any pixel
/// (x, y) of the image, each of its four bytes equals the marker color's
/// channel if the pixel lies inside the marker rectangle, and is byte-for-byte
/// unchanged otherwise.
pub proof fn lemma_annotate_pixel(s: Seq<u8>, width: int, height: int, x: int, y: int, c: int)
    requires
        s.len() == width * height * BYTES_PER_PIXEL,
        0 <= x < width,
        0 <= y < height,
        0 <= c < BYTES_PER_PIXEL,
    ensures
        0 <= (BYTES_PER_PIXEL as int) * (y * width + x) + c < s.len(),
        in_marker(x, y, width, height)
            ==> annotated(s, width)[(BYTES_PER_PIXEL as int) * (y * width + x) + c]
            == marker_channel(c),
        !in_marker(x, y, width, height)
            ==> annotated(s, width)[(BYTES_PER_PIXEL as int) * (y * width + x) + c]
            == s[(BYTES_PER_PIXEL as int) * (y * width + x) + c],
{
    let bpp = BYTES_PER_PIXEL as int;
    let p = y * width + x;
    assert(0 <= p && p + 1 <= width * height) by (nonlinear_arith)
        requires
            0 <= x < width,
            0 <= y < height,
            p == y * width + x,
    ;
    let i = bpp * p + c;
    assert(0 <= i && i < width * height * bpp) by (nonlinear_arith)
        requires
            0 <= p,
            p + 1 <= width * height,
            0 <= c < bpp,
            bpp == 4,
            i == bpp * p + c,
    ;
    lemma_fundamental_div_mod_converse(i, bpp, p, c);
    lemma_fundamental_div_mod_converse(p, width, y, x);
    assert(annotated(s, width)[i] == annotated_byte(s, width, i));
}

/// Law: annotating an already annotated buffer changes nothing; applying
/// `annotate` twice yields the same bytes as applying it once.
pub proof fn lemma_annotate_idempotent(s: Seq<u8>, width: int)
    ensures
        annotated(annotated(s, width), width) == annotated(s, width),
{
    let a1 = annotated(s, width);
    let a2 = annotated(a1, width);
    assert forall|i: int| 0 <= i < a1.len() implies a2[i] == a1[i] by {
        assert(a1[i] == annotated_byte(s, width, i));
        assert(a2[i] == annotated_byte(a1, width, i));
    }
    assert(a2 =~= a1);
}

} // verus!
