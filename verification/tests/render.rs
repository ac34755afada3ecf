use image_peek::preview;
use image_peek::raster::glyph_for;
use image_peek::raster::intensity_of;
use image_peek::raster::render_frame;
use image_peek::raster::sample_point;
use image_peek::style::render_lines;
use image_peek::Glyph;
use image_peek::Image;
use image_peek::Pixel;
use image_peek::PrintSize;
use image_peek::RenderError;

fn px(r: u8, g: u8, b: u8) -> Pixel {
    Pixel { r, g, b }
}

fn two_by_two() -> Image {
    Image {
        width: 2,
        height: 2,
        pixels: vec![
            px(255, 0, 0),
            px(0, 255, 0),
            px(0, 0, 255),
            px(255, 255, 255),
        ],
    }
}

#[test]
fn intensity_is_truncated_channel_average() {
    assert_eq!(intensity_of(&px(255, 0, 0)), 85);
    assert_eq!(intensity_of(&px(255, 255, 255)), 255);
    assert_eq!(intensity_of(&px(0, 0, 0)), 0);
    assert_eq!(intensity_of(&px(1, 1, 0)), 0);
    assert_eq!(intensity_of(&px(64, 64, 64)), 64);
}

#[test]
fn grayscale_bands_pick_the_four_glyphs() {
    let cases = [
        (0u8, '█'),
        (63, '█'),
        (64, '▓'),
        (127, '▓'),
        (128, '▒'),
        (191, '▒'),
        (192, '░'),
        (255, '░'),
    ];
    for (v, ch) in cases {
        let g = glyph_for(&px(v, v, v), true);
        assert_eq!(
            g,
            Glyph {
                ch,
                r: 0,
                g: 0,
                b: 0
            }
        );
    }
}

#[test]
fn true_color_glyph_keeps_the_pixel_color() {
    let g = glyph_for(&px(12, 34, 56), false);
    assert_eq!(
        g,
        Glyph {
            ch: '█',
            r: 12,
            g: 34,
            b: 56
        }
    );
}

#[test]
fn sampling_stays_inside_the_image() {
    let img = two_by_two();
    let t = PrintSize {
        width: 10,
        height: 10,
    };
    for x in 0..t.width {
        for y in 0..t.height {
            let (sx, sy) = sample_point(&img, &t, x, y);
            assert!(sx < img.width && sy < img.height);
        }
    }
    assert_eq!(sample_point(&img, &t, 0, 0), (0, 0));
    assert_eq!(sample_point(&img, &t, 9, 9), (1, 1));
}

#[test]
fn sampling_clamps_an_overshot_coordinate() {
    let img = Image {
        width: 1,
        height: 4,
        pixels: vec![px(0, 0, 0); 4],
    };
    let t = PrintSize {
        width: 2,
        height: 2,
    };
    // The ratio comes from the image height, so the unclamped column
    // for x = 1 would be 2 in a one-pixel-wide image.
    assert_eq!(sample_point(&img, &t, 1, 1), (0, 2));
}

#[test]
fn frame_renders_exactly_the_odd_rows() {
    let img = two_by_two();
    let t = PrintSize {
        width: 10,
        height: 10,
    };
    let frame = render_frame(&img, &t, true);
    // Target rows 1, 3, 5, 7, 9 and no others.
    assert_eq!(frame.len(), 5);
    for row in &frame {
        assert_eq!(row.len(), 10);
    }
    let dark = Glyph {
        ch: '▓',
        r: 0,
        g: 0,
        b: 0,
    };
    let light = Glyph {
        ch: '░',
        r: 0,
        g: 0,
        b: 0,
    };
    // Rows 1 and 3 sample source row 0: red then green, both dark.
    for i in 0..2 {
        assert_eq!(frame[i], vec![dark; 10]);
    }
    // Rows 5, 7, 9 sample source row 1: blue is dark, white is light.
    for i in 2..5 {
        let mut expected = vec![dark; 5];
        expected.extend(vec![light; 5]);
        assert_eq!(frame[i], expected);
    }
}

#[test]
fn frame_rendering_is_deterministic() {
    let img = two_by_two();
    let t = PrintSize {
        width: 10,
        height: 10,
    };
    assert_eq!(render_frame(&img, &t, true), render_frame(&img, &t, true));
    let once = render_lines(&img, &t, true);
    let twice = render_lines(&img, &t, true);
    assert_eq!(once, twice);
}

#[test]
fn lines_carry_ansi_color_escapes() {
    let img = Image {
        width: 1,
        height: 1,
        pixels: vec![px(255, 0, 0)],
    };
    let t = PrintSize {
        width: 1,
        height: 2,
    };
    let lines = render_lines(&img, &t, false);
    assert_eq!(lines, vec!["\u{1b}[38;2;255;0;0m█\u{1b}[0m".to_string()]);
    let gray = render_lines(&img, &t, true);
    assert_eq!(gray, vec!["\u{1b}[38;2;0;0;0m▓\u{1b}[0m".to_string()]);
}

#[test]
fn preview_fits_and_renders_the_grid() {
    let img = two_by_two();
    let lines = preview(&img, 10, 10, true).unwrap();
    assert_eq!(lines.len(), 5);
}

#[test]
fn preview_rejects_a_zero_dimension() {
    let empty = Image {
        width: 0,
        height: 0,
        pixels: vec![],
    };
    assert_eq!(
        preview(&empty, 10, 10, true),
        Err(RenderError::InvalidDimensions)
    );
    let img = two_by_two();
    assert_eq!(
        preview(&img, 0, 10, true),
        Err(RenderError::InvalidDimensions)
    );
}
