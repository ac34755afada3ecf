//! ANSI-styled text for glyph rows.
//!
//! Each glyph is painted in its own color through `yansi` and the
//! styled pieces are concatenated into one printable line per rendered
//! row. Whether the escape codes are emitted depends on `yansi`'s
//! process-wide enable switch, so the contracts here state only what
//! holds either way: every painted character appears in its line, in
//! row order.

use vstd::prelude::*;

use crate::Glyph;
use crate::Image;
use crate::PrintSize;
use crate::raster::render_frame;
use crate::raster::row_glyphs;

verus! {

/// Relies on `yansi::Paint::rgb` and its `Display` impl: the painted
/// text is the character wrapped in ANSI color escapes while painting
/// is enabled, and the bare character otherwise; in every outcome the
/// character itself appears in the text.
#[verifier::external_body]
fn styled(r: u8, g: u8, b: u8, c: char) -> (s: String)
    ensures
        s@.len() >= 1,
        exists|i: int| 0 <= i < s@.len() && s@[i] == c,
{
    format!("{}", yansi::Paint::rgb(r, g, b, c))
}

/// One printable line for a row of glyphs: each glyph styled with its
/// color, concatenated left to right.
pub fn styled_line(row: &Vec<Glyph>) -> (line: String)
    ensures
        line@.len() >= row@.len(),
{
    let mut line = String::new();
    let mut i: usize = 0;
    while i < row.len()
        invariant
            i <= row@.len(),
            line@.len() >= i,
        decreases row@.len() - i,
    {
        let g = row[i];
        let s = styled(g.r, g.g, g.b, g.ch);
        line.append(s.as_str());
        i = i + 1;
    }
    line
}

/// Render the printable lines of the frame: one line per odd-indexed
/// target row, in increasing row order, holding at least one character
/// per target column.
pub fn render_lines(img: &Image, t: &PrintSize, grayscale: bool) -> (lines: Vec<String>)
    requires
        img.wf(),
        img.width >= 1,
        img.height >= 1,
    ensures
        lines@.len() == t.height / 2,
        forall|i: int| 0 <= i < lines@.len() ==> lines@[i]@.len() >= t.width,
{
    let frame = render_frame(img, t, grayscale);
    let mut lines: Vec<String> = Vec::new();
    let mut i: usize = 0;
    proof {
        assert forall|k: int| 0 <= k < frame@.len() implies frame@[k]@.len() == t.width by {
            assert(frame@[k]@ == row_glyphs(*img, *t, 2 * k + 1, grayscale));
        }
    }
    while i < frame.len()
        invariant
            i <= frame@.len(),
            lines@.len() == i,
            forall|k: int| 0 <= k < frame@.len() ==> frame@[k]@.len() == t.width,
            forall|k: int| 0 <= k < i ==> lines@[k]@.len() >= t.width,
        decreases frame@.len() - i,
    {
        let line = styled_line(&frame[i]);
        lines.push(line);
        i = i + 1;
    }
    lines
}

} // verus!
