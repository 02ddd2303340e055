use vstd::prelude::*;
use crate::geometry::{CANVAS, centre_offsets, padding};

verus! {

/// Position of channel `c` of pixel (`x`, `y`) in a row-major RGBA buffer
/// whose rows are `width` pixels long.
pub open spec fn rgba_index(width: int, y: int, x: int, c: int) -> int {
    (y * width + x) * 4 + c
}

/// Position of channel `c` of pixel (`x`, `y`) in a channel-major
/// (channel, row, column) tensor of the canvas.
pub open spec fn plane_index(c: int, y: int, x: int) -> int {
    (c * CANVAS + y) * CANVAS + x
}

/// Byte at channel `c` of canvas pixel (`x`, `y`) once an RGBA image of
/// `width` x `height` pixels is centred on a zeroed canvas with its alpha
/// forced opaque.
pub open spec fn canvas_byte(src: Seq<u8>, width: int, height: int, y: int, x: int, c: int) -> u8 {
    let (px, py) = centre_offsets(width, height);
    if py <= y < py + height && px <= x < px + width {
        if c == 3 {
            255
        } else {
            src[rgba_index(width, y - py, x - px, c)]
        }
    } else {
        0
    }
}

/// A decoded image: `width` x `height` pixels, four bytes (R, G, B, A) each,
/// stored row by row.
pub struct Raster {
    pub width: u32,
    pub height: u32,
    pub pixels: Vec<u8>,
}

impl Raster {
    /// The buffer holds exactly one RGBA quadruple per pixel.
    pub open spec fn wf(&self) -> bool {
        self.pixels@.len() == 4 * self.width * self.height
    }

    /// Wraps an RGBA buffer, or `None` when its length does not match the size.
    pub fn from_rgba(width: u32, height: u32, pixels: Vec<u8>) -> (r: Option<Raster>)
        ensures
            r.is_some() <==> pixels@.len() == 4 * width * height,
            r matches Some(img) ==> img.width == width && img.height == height && img.pixels@
                == pixels@,
    {
        assert(width * height <= u64::MAX) by (nonlinear_arith)
            requires
                width <= u32::MAX,
                height <= u32::MAX,
        ;
        let area: u64 = width as u64 * height as u64;
        let expected: u128 = 4u128 * area as u128;
        assert(4 * width * height == 4 * (width * height)) by (nonlinear_arith);
        if pixels.len() as u128 == expected {
            Some(Raster { width, height, pixels })
        } else {
            None
        }
    }
}

proof fn lemma_rgba_index_bound(width: int, height: int, y: int, x: int, c: int)
    requires
        0 <= y < height,
        0 <= x < width,
        0 <= c < 4,
    ensures
        0 <= rgba_index(width, y, x, c) < 4 * width * height,
{
    assert((y * width + x) * 4 + c < 4 * width * height) by (nonlinear_arith)
        requires
            0 <= y < height,
            0 <= x < width,
            0 <= c < 4,
    ;
    assert(0 <= (y * width + x) * 4 + c) by (nonlinear_arith)
        requires
            0 <= y,
            0 <= x < width,
            0 <= c,
    ;
}

/// Centres `img` on a `CANVAS` x `CANVAS` canvas. Canvas pixels that the image
/// does not cover stay zero in every channel; covered ones take the image's
/// colour with alpha 255.
pub fn compose(img: &Raster) -> (r: Raster)
    requires
        img.wf(),
        img.width <= CANVAS,
        img.height <= CANVAS,
    ensures
        r.wf(),
        r.width == CANVAS,
        r.height == CANVAS,
        forall|y: int, x: int, c: int|
            0 <= y < CANVAS && 0 <= x < CANVAS && 0 <= c < 4 ==> r.pixels@[rgba_index(
                CANVAS as int,
                y,
                x,
                c,
            )] == #[trigger] canvas_byte(img.pixels@, img.width as int, img.height as int, y, x, c),
{
    let w = img.width;
    let h = img.height;
    let (px, py) = padding(w, h);
    let ghost src = img.pixels@;
    let mut out: Vec<u8> = Vec::new();
    let mut y: u32 = 0;
    while y < CANVAS
        invariant
            y <= CANVAS,
            w == img.width,
            h == img.height,
            src == img.pixels@,
            img.wf(),
            w <= CANVAS,
            h <= CANVAS,
            (px as int, py as int) == centre_offsets(w as int, h as int),
            out@.len() == rgba_index(CANVAS as int, y as int, 0, 0),
            forall|yy: int, xx: int, c: int|
                0 <= yy < y && 0 <= xx < CANVAS && 0 <= c < 4 ==> out@[rgba_index(
                    CANVAS as int,
                    yy,
                    xx,
                    c,
                )] == #[trigger] canvas_byte(src, w as int, h as int, yy, xx, c),
        decreases CANVAS - y,
    {
        let mut x: u32 = 0;
        while x < CANVAS
            invariant
                y < CANVAS,
                x <= CANVAS,
                w == img.width,
                h == img.height,
                src == img.pixels@,
                img.wf(),
                w <= CANVAS,
                h <= CANVAS,
                (px as int, py as int) == centre_offsets(w as int, h as int),
                out@.len() == rgba_index(CANVAS as int, y as int, x as int, 0),
                forall|yy: int, xx: int, c: int|
                    0 <= yy && 0 <= xx < CANVAS && 0 <= c < 4 && (yy < y || (yy == y && xx < x))
                        ==> out@[rgba_index(CANVAS as int, yy, xx, c)] == #[trigger] canvas_byte(
                        src,
                        w as int,
                        h as int,
                        yy,
                        xx,
                        c,
                    ),
            decreases CANVAS - x,
        {
            let ghost before = out@;
            if py <= y && y < py + h && px <= x && x < px + w {
                let sy = y - py;
                let sx = x - px;
                proof {
                    lemma_rgba_index_bound(w as int, h as int, sy as int, sx as int, 0);
                    lemma_rgba_index_bound(w as int, h as int, sy as int, sx as int, 3);
                    assert(sy * w <= CANVAS * CANVAS) by (nonlinear_arith)
                        requires
                            sy < h,
                            h <= CANVAS,
                            w <= CANVAS,
                    ;
                }
                let base: usize = ((sy * w + sx) * 4) as usize;
                out.push(img.pixels[base]);
                out.push(img.pixels[base + 1]);
                out.push(img.pixels[base + 2]);
                out.push(255u8);
            } else {
                out.push(0u8);
                out.push(0u8);
                out.push(0u8);
                out.push(0u8);
            }
            assert forall|yy: int, xx: int, c: int|
                0 <= yy && 0 <= xx < CANVAS && 0 <= c < 4 && (yy < y || (yy == y && xx < x + 1))
                    implies out@[rgba_index(CANVAS as int, yy, xx, c)] == #[trigger] canvas_byte(
                    src,
                    w as int,
                    h as int,
                    yy,
                    xx,
                    c,
                ) by {
                if yy == y && xx == x {
                    assert(out@[rgba_index(CANVAS as int, yy, xx, c)] == out@[before.len() + c]);
                } else {
                    assert(out@[rgba_index(CANVAS as int, yy, xx, c)] == before[rgba_index(
                        CANVAS as int,
                        yy,
                        xx,
                        c,
                    )]);
                }
            }
            x = x + 1;
        }
        y = y + 1;
    }
    Raster { width: CANVAS, height: CANVAS, pixels: out }
}

/// Lays the colour channels of a canvas out channel-major: all red bytes row by
/// row, then all green, then all blue. Alpha is dropped.
pub fn channel_planes(canvas: &Raster) -> (r: Vec<u8>)
    requires
        canvas.wf(),
        canvas.width == CANVAS,
        canvas.height == CANVAS,
    ensures
        r@.len() == 3 * CANVAS * CANVAS,
        forall|c: int, y: int, x: int|
            0 <= c < 3 && 0 <= y < CANVAS && 0 <= x < CANVAS ==> #[trigger] r@[plane_index(c, y, x)]
                == canvas.pixels@[rgba_index(CANVAS as int, y, x, c)],
{
    let mut out: Vec<u8> = Vec::new();
    let mut c: usize = 0;
    while c < 3
        invariant
            c <= 3,
            canvas.wf(),
            canvas.width == CANVAS,
            canvas.height == CANVAS,
            out@.len() == plane_index(c as int, 0, 0),
            forall|cc: int, y: int, x: int|
                0 <= cc < c && 0 <= y < CANVAS && 0 <= x < CANVAS ==> #[trigger] out@[plane_index(
                    cc,
                    y,
                    x,
                )] == canvas.pixels@[rgba_index(CANVAS as int, y, x, cc)],
        decreases 3 - c,
    {
        let mut y: usize = 0;
        while y < 224
            invariant
                c < 3,
                y <= CANVAS,
                canvas.wf(),
                canvas.width == CANVAS,
                canvas.height == CANVAS,
                out@.len() == plane_index(c as int, y as int, 0),
                forall|cc: int, yy: int, x: int|
                    0 <= cc && 0 <= yy < CANVAS && 0 <= x < CANVAS && (cc < c || (cc == c && yy
                        < y)) ==> #[trigger] out@[plane_index(cc, yy, x)]
                        == canvas.pixels@[rgba_index(CANVAS as int, yy, x, cc)],
            decreases CANVAS - y,
        {
            let mut x: usize = 0;
            while x < 224
                invariant
                    c < 3,
                    y < CANVAS,
                    x <= CANVAS,
                    canvas.wf(),
                    canvas.width == CANVAS,
                    canvas.height == CANVAS,
                    out@.len() == plane_index(c as int, y as int, x as int),
                    forall|cc: int, yy: int, xx: int|
                        0 <= cc && 0 <= yy < CANVAS && 0 <= xx < CANVAS && (cc < c || (cc == c
                            && yy < y) || (cc == c && yy == y && xx < x)) ==> #[trigger] out@[plane_index(
                            cc,
                            yy,
                            xx,
                        )] == canvas.pixels@[rgba_index(CANVAS as int, yy, xx, cc)],
                decreases CANVAS - x,
            {
                let ghost before = out@;
                let i: usize = (y * 224 + x) * 4 + c;
                out.push(canvas.pixels[i]);
                assert forall|cc: int, yy: int, xx: int|
                    0 <= cc && 0 <= yy < CANVAS && 0 <= xx < CANVAS && (cc < c || (cc == c && yy
                        < y) || (cc == c && yy == y && xx < x + 1)) implies #[trigger] out@[plane_index(
                        cc,
                        yy,
                        xx,
                    )] == canvas.pixels@[rgba_index(CANVAS as int, yy, xx, cc)] by {
                    if !(cc == c && yy == y && xx == x) {
                        assert(out@[plane_index(cc, yy, xx)] == before[plane_index(cc, yy, xx)]);
                    }
                }
                x = x + 1;
            }
            y = y + 1;
        }
        c = c + 1;
    }
    out
}

} // verus!
