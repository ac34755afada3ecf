//! Nearest-neighbor rasterization of an image into glyph rows.
//!
//! Every cell of the render target maps back to one source pixel: both
//! axes are scaled by a single ratio taken from the target's longer
//! side, truncated toward zero and clamped to the image's bounds. Only
//! the odd-indexed target rows are rendered, which compensates for
//! terminal cells being roughly twice as tall as wide. A sampled pixel
//! becomes either a solid block in its own color (true-color mode) or
//! one of four shade characters in black, chosen by banded average
//! intensity (grayscale mode).

use vstd::prelude::*;

use vstd::arithmetic::mul::lemma_mul_upper_bound;

use crate::Glyph;
use crate::Image;
use crate::Pixel;
use crate::PrintSize;

verus! {

/// Numerator of the sampling ratio: the image side matching the
/// target's longer side.
pub open spec fn ratio_num(img: Image, t: PrintSize) -> int {
    if t.width > t.height {
        img.width as int
    } else {
        img.height as int
    }
}

/// Denominator of the sampling ratio: the target's longer side.
pub open spec fn ratio_den(t: PrintSize) -> int {
    if t.width > t.height {
        t.width as int
    } else {
        t.height as int
    }
}

/// Clamp a sampled index to stay below `limit`.
pub open spec fn clamp_index(raw: int, limit: int) -> int {
    if raw < limit {
        raw
    } else {
        limit - 1
    }
}

/// Source column sampled for target column `x`.
pub open spec fn source_x(img: Image, t: PrintSize, x: int) -> int {
    clamp_index(x * ratio_num(img, t) / ratio_den(t), img.width as int)
}

/// Source row sampled for target row `y`.
pub open spec fn source_y(img: Image, t: PrintSize, y: int) -> int {
    clamp_index(y * ratio_num(img, t) / ratio_den(t), img.height as int)
}

/// Map a target cell to the source pixel it samples. The result always
/// lies within `[0, width) x [0, height)` of the image.
pub fn sample_point(img: &Image, t: &PrintSize, x: u32, y: u32) -> (c: (u32, u32))
    requires
        img.width >= 1,
        img.height >= 1,
        x < t.width,
        y < t.height,
    ensures
        c.0 == source_x(*img, *t, x as int),
        c.1 == source_y(*img, *t, y as int),
        c.0 < img.width,
        c.1 < img.height,
{
    let num: u64 = if t.width > t.height {
        img.width as u64
    } else {
        img.height as u64
    };
    let den: u64 = if t.width > t.height {
        t.width as u64
    } else {
        t.height as u64
    };
    proof {
        lemma_mul_upper_bound(x as int, u32::MAX as int, num as int, u32::MAX as int);
        lemma_mul_upper_bound(y as int, u32::MAX as int, num as int, u32::MAX as int);
    }
    let rx = x as u64 * num / den;
    let ry = y as u64 * num / den;
    let cx = if rx < img.width as u64 {
        rx as u32
    } else {
        img.width - 1
    };
    let cy = if ry < img.height as u64 {
        ry as u32
    } else {
        img.height - 1
    };
    (cx, cy)
}

/// Average channel intensity of a pixel, truncated.
pub open spec fn intensity(p: Pixel) -> int {
    (p.r + p.g + p.b) / 3
}

/// Compute the average channel intensity.
pub fn intensity_of(p: &Pixel) -> (avg: u8)
    ensures
        avg == intensity(*p),
{
    (((p.r as u16) + (p.g as u16) + (p.b as u16)) / 3) as u8
}

/// Intensities drawn as a full block.
pub open spec fn band_full(avg: int) -> bool {
    0 <= avg < 64
}

/// Intensities drawn as a dark shade.
pub open spec fn band_dark(avg: int) -> bool {
    64 <= avg < 128
}

/// Intensities drawn as a medium shade.
pub open spec fn band_medium(avg: int) -> bool {
    128 <= avg < 192
}

/// Intensities drawn as a light shade.
pub open spec fn band_light(avg: int) -> bool {
    192 <= avg <= 255
}

/// The glyph drawn for a grayscale intensity.
pub open spec fn shade_char(avg: int) -> char {
    if avg < 64 {
        '█'
    } else if avg < 128 {
        '▓'
    } else if avg < 192 {
        '▒'
    } else {
        '░'
    }
}

/// Law: the four grayscale bands partition `[0, 255]` — every intensity
/// falls in exactly one band — and `shade_char` maps each band to its
/// own glyph.
pub proof fn lemma_bands_partition(avg: int)
    requires
        0 <= avg <= 255,
    ensures
        band_full(avg) || band_dark(avg) || band_medium(avg) || band_light(avg),
        !(band_full(avg) && band_dark(avg)),
        !(band_full(avg) && band_medium(avg)),
        !(band_full(avg) && band_light(avg)),
        !(band_dark(avg) && band_medium(avg)),
        !(band_dark(avg) && band_light(avg)),
        !(band_medium(avg) && band_light(avg)),
        band_full(avg) <==> shade_char(avg) == '█',
        band_dark(avg) <==> shade_char(avg) == '▓',
        band_medium(avg) <==> shade_char(avg) == '▒',
        band_light(avg) <==> shade_char(avg) == '░',
{
}

/// The glyph for a sampled pixel under the selected color mode: a solid
/// block in the pixel's own color, or a shade character in black.
pub open spec fn glyph_of(p: Pixel, grayscale: bool) -> Glyph {
    if grayscale {
        Glyph { ch: shade_char(intensity(p)), r: 0, g: 0, b: 0 }
    } else {
        Glyph { ch: '█', r: p.r, g: p.g, b: p.b }
    }
}

/// Turn a sampled pixel into its output glyph.
pub fn glyph_for(p: &Pixel, grayscale: bool) -> (g: Glyph)
    ensures
        g == glyph_of(*p, grayscale),
{
    if grayscale {
        let avg = intensity_of(p);
        let ch = if avg < 64 {
            '█'
        } else if avg < 128 {
            '▓'
        } else if avg < 192 {
            '▒'
        } else {
            '░'
        };
        Glyph { ch, r: 0, g: 0, b: 0 }
    } else {
        Glyph { ch: '█', r: p.r, g: p.g, b: p.b }
    }
}

/// The glyph a target cell renders to.
pub open spec fn cell_glyph(img: Image, t: PrintSize, x: int, y: int, grayscale: bool) -> Glyph {
    glyph_of(img.pixel_at(source_x(img, t, x), source_y(img, t, y)), grayscale)
}

/// The glyphs of one target row, left to right.
pub open spec fn row_glyphs(img: Image, t: PrintSize, y: int, grayscale: bool) -> Seq<Glyph> {
    Seq::new(t.width as nat, |x: int| cell_glyph(img, t, x, y, grayscale))
}

/// Render one target row: one glyph per target column.
pub fn render_row(img: &Image, t: &PrintSize, y: u32, grayscale: bool) -> (row: Vec<Glyph>)
    requires
        img.wf(),
        img.width >= 1,
        img.height >= 1,
        y < t.height,
    ensures
        row@ == row_glyphs(*img, *t, y as int, grayscale),
{
    let mut row: Vec<Glyph> = Vec::new();
    let mut x: u32 = 0;
    while x < t.width
        invariant
            img.wf(),
            img.width >= 1,
            img.height >= 1,
            y < t.height,
            x <= t.width,
            row@.len() == x,
            forall|j: int| 0 <= j < x ==> row@[j] == cell_glyph(*img, *t, j, y as int, grayscale),
        decreases t.width - x,
    {
        let (sx, sy) = sample_point(img, t, x, y);
        let p = img.get(sx, sy);
        let g = glyph_for(&p, grayscale);
        row.push(g);
        x = x + 1;
    }
    proof {
        assert(row@ =~= row_glyphs(*img, *t, y as int, grayscale));
    }
    row
}

/// Render the frame: one glyph row for each odd-indexed target row, in
/// increasing row order. The even-indexed rows produce nothing, so the
/// frame holds exactly `height / 2` rows and its row `i` is target row
/// `2 * i + 1`.
pub fn render_frame(img: &Image, t: &PrintSize, grayscale: bool) -> (frame: Vec<Vec<Glyph>>)
    requires
        img.wf(),
        img.width >= 1,
        img.height >= 1,
    ensures
        frame@.len() == t.height / 2,
        forall|i: int| 0 <= i < frame@.len() ==> frame@[i]@ == row_glyphs(
            *img,
            *t,
            2 * i + 1,
            grayscale,
        ),
{
    let mut frame: Vec<Vec<Glyph>> = Vec::new();
    let mut y: u32 = 0;
    while y < t.height
        invariant
            img.wf(),
            img.width >= 1,
            img.height >= 1,
            y <= t.height,
            frame@.len() == y / 2,
            forall|i: int| 0 <= i < frame@.len() ==> frame@[i]@ == row_glyphs(
                *img,
                *t,
                2 * i + 1,
                grayscale,
            ),
        decreases t.height - y,
    {
        if y % 2 == 1 {
            let row = render_row(img, t, y, grayscale);
            frame.push(row);
        }
        y = y + 1;
    }
    frame
}

} // verus!
