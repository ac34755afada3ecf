//! Preview a raster image inside a text terminal.
//!
//! The library scales an image to the terminal's character grid while
//! preserving its aspect ratio (module [`fit`]), maps every cell of the
//! resulting render target back to a source pixel by clamped
//! nearest-neighbor sampling and turns the pixel into a colored glyph
//! (module [`raster`]), and renders the glyph rows as ANSI-styled lines
//! (module [`style`]). Terminal cells are roughly twice as tall as wide,
//! so only the odd-indexed target rows are rendered.

use vstd::prelude::*;

pub mod fit;
pub mod raster;
pub mod style;

verus! {

/// Terminal and image dimensions for one invocation: the terminal in
/// character cells, the image in pixels.
#[derive(Clone, Copy, Debug)]
pub struct Viewport {
    pub term_width: u32,
    pub term_height: u32,
    pub image_width: u32,
    pub image_height: u32,
}

/// A render size in character cells, computed by the fit algorithm.
#[derive(Clone, Copy, Debug, PartialEq, Eq, Structural)]
pub struct PrintSize {
    pub width: u32,
    pub height: u32,
}

/// One source pixel, eight bits per channel.
#[derive(Clone, Copy, Debug, PartialEq, Eq, Structural)]
pub struct Pixel {
    pub r: u8,
    pub g: u8,
    pub b: u8,
}

/// One output cell: a display character and the color to draw it with.
#[derive(Clone, Copy, Debug, PartialEq, Eq, Structural)]
pub struct Glyph {
    pub ch: char,
    pub r: u8,
    pub g: u8,
    pub b: u8,
}

/// A decoded image held as plain values: pixels in row-major order.
pub struct Image {
    pub width: u32,
    pub height: u32,
    pub pixels: Vec<Pixel>,
}

impl Image {
    /// The pixel vector holds exactly one entry per coordinate pair.
    pub open spec fn wf(self) -> bool {
        self.pixels@.len() == self.width * self.height
    }

    /// The pixel addressed by `(x, y)`.
    pub open spec fn pixel_at(self, x: int, y: int) -> Pixel {
        self.pixels@[y * self.width + x]
    }

    /// Read the pixel at `(x, y)`.
    pub fn get(&self, x: u32, y: u32) -> (p: Pixel)
        requires
            self.wf(),
            x < self.width,
            y < self.height,
        ensures
            p == self.pixel_at(x as int, y as int),
    {
        // Reading the length teaches the verifier that the pixel count
        // fits in usize, which bounds the index arithmetic below.
        let _pixel_count: usize = self.pixels.len();
        proof {
            assert((y as int) * (self.width as int) + (x as int) < (self.width as int) * (
            self.height as int)) by (nonlinear_arith)
                requires
                    y < self.height,
                    x < self.width,
            ;
        }
        let idx: usize = (y as usize) * (self.width as usize) + (x as usize);
        self.pixels[idx]
    }
}

/// Why an invocation cannot render.
#[derive(Clone, Copy, Debug, PartialEq, Eq, Structural)]
pub enum RenderError {
    MissingArgument,
    ImageDecodeError,
    TerminalUnavailable,
    InvalidDimensions,
}

/// The printable description of each error.
pub open spec fn error_text(e: RenderError) -> Seq<char> {
    match e {
        RenderError::MissingArgument => "missing filename argument"@,
        RenderError::ImageDecodeError => "could not decode the image"@,
        RenderError::TerminalUnavailable => "no terminal attached"@,
        RenderError::InvalidDimensions => "invalid image or terminal dimensions"@,
    }
}

impl RenderError {
    /// A printable description of the error.
    pub fn message(&self) -> (s: String)
        ensures
            s@ == error_text(*self),
    {
        match self {
            RenderError::MissingArgument => String::from_str("missing filename argument"),
            RenderError::ImageDecodeError => String::from_str("could not decode the image"),
            RenderError::TerminalUnavailable => String::from_str("no terminal attached"),
            RenderError::InvalidDimensions => String::from_str(
                "invalid image or terminal dimensions",
            ),
        }
    }
}

/// The viewport that pairs `img`'s dimensions with a terminal grid.
pub open spec fn viewport_of(img: Image, term_width: u32, term_height: u32) -> Viewport {
    Viewport {
        term_width,
        term_height,
        image_width: img.width,
        image_height: img.height,
    }
}

/// Preview `img` for a terminal of `term_width` columns and
/// `term_height` rows: fit a render size, sample the image, and return
/// the printable lines — one per odd-indexed row of the render target.
/// A zero dimension (or a doubled render height past `u32::MAX`) is
/// rejected as `InvalidDimensions`.
pub fn preview(img: &Image, term_width: u32, term_height: u32, grayscale: bool) -> (r: Result<
    Vec<String>,
    RenderError,
>)
    requires
        img.wf(),
    ensures
        !fit::view_positive(viewport_of(*img, term_width, term_height)) ==> (r matches Err(e)
            && e == RenderError::InvalidDimensions),
        fit::view_positive(viewport_of(*img, term_width, term_height)) && fit::target_size(
            viewport_of(*img, term_width, term_height),
        ).1 > u32::MAX ==> (r matches Err(e) && e == RenderError::InvalidDimensions),
        fit::view_positive(viewport_of(*img, term_width, term_height)) && fit::target_size(
            viewport_of(*img, term_width, term_height),
        ).1 <= u32::MAX ==> (r matches Ok(lines) && lines@.len() == fit::target_size(
            viewport_of(*img, term_width, term_height),
        ).1 / 2),
{
    let view = Viewport {
        term_width,
        term_height,
        image_width: img.width,
        image_height: img.height,
    };
    let ps = match fit::try_size(view) {
        Ok(ps) => ps,
        Err(e) => {
            return Err(e);
        },
    };
    Ok(style::render_lines(img, &ps, grayscale))
}

} // verus!
