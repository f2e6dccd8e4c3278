use image::Pixel;
use image::Rgba;
use tvframe::colors::{create_palette, Palette};
use tvframe::frame_renderer::{FrameRenderer, RenderError, VicOutput};
use tvframe::raster::FrameImage;

/// Returns a simple palette that is useful for testing.
fn simple_palette() -> Palette {
    create_palette(&[0x000000, 0xFFFFFF, 0xFF0000, 0x00FF00, 0x0000FF])
}

fn vic_output(x: usize, y: usize, color: u8) -> VicOutput {
    VicOutput { x, y, color }
}

fn all_pixels(image: &FrameImage) -> Vec<(u32, u32, Rgba<u8>)> {
    let mut pixels = Vec::new();
    for y in 0..image.height() {
        for x in 0..image.width() {
            pixels.push((x, y, image.get_pixel(x, y)));
        }
    }
    pixels
}

const BLACK: Rgba<u8> = Rgba([0x00, 0x00, 0x00, 0xFF]);

#[test]
fn draws_pixels() {
    let mut fr = FrameRenderer::new(simple_palette(), [0, 0, 10, 10]);
    fr.consume(vic_output(0, 0, 2)).unwrap();
    fr.consume(vic_output(9, 0, 3)).unwrap();
    fr.consume(vic_output(0, 9, 4)).unwrap();
    fr.consume(vic_output(9, 9, 1)).unwrap();

    assert_eq!(
        fr.frame_image().get_pixel(0, 0),
        Rgba::from_channels(0xFF, 0x00, 0x00, 0xFF)
    );
    assert_eq!(
        fr.frame_image().get_pixel(9, 0),
        Rgba::from_channels(0x00, 0xFF, 0x00, 0xFF)
    );
    assert_eq!(
        fr.frame_image().get_pixel(0, 9),
        Rgba::from_channels(0x00, 0x00, 0xFF, 0xFF)
    );
    assert_eq!(
        fr.frame_image().get_pixel(9, 9),
        Rgba::from_channels(0xFF, 0xFF, 0xFF, 0xFF)
    );
}

#[test]
fn uses_viewport() {
    let mut fr = FrameRenderer::new(simple_palette(), [4, 5, 6, 7]);
    // Red, green, and blue pixels
    fr.consume(vic_output(4, 5, 2)).unwrap();
    fr.consume(vic_output(7, 8, 3)).unwrap();
    fr.consume(vic_output(9, 11, 4)).unwrap();

    // White pixels, right outside the viewport
    fr.consume(vic_output(3, 8, 1)).unwrap();
    fr.consume(vic_output(7, 4, 1)).unwrap();
    fr.consume(vic_output(10, 8, 1)).unwrap();
    fr.consume(vic_output(7, 12, 1)).unwrap();

    // Red, green, and blue all should appear within the viewport.
    assert_eq!(
        fr.frame_image().get_pixel(0, 0),
        Rgba::from_channels(0xFF, 0x00, 0x00, 0xFF)
    );
    assert_eq!(
        fr.frame_image().get_pixel(3, 3),
        Rgba::from_channels(0x00, 0xFF, 0x00, 0xFF)
    );
    assert_eq!(
        fr.frame_image().get_pixel(5, 6),
        Rgba::from_channels(0x00, 0x00, 0xFF, 0xFF)
    );

    // No whites expected, they are outside.
    assert!(!all_pixels(fr.frame_image())
        .iter()
        .any(|(_, _, pixel)| pixel == &Rgba::from_channels(0xFF, 0xFF, 0xFF, 0xFF)));
}

#[test]
fn frame_has_the_viewport_size() {
    let fr = FrameRenderer::new(simple_palette(), [4, 5, 6, 7]);
    assert_eq!(fr.frame_image().width(), 6);
    assert_eq!(fr.frame_image().height(), 7);
    let other = FrameRenderer::new(simple_palette(), [0, 0, 320, 200]);
    assert_eq!(other.frame_image().width(), 320);
    assert_eq!(other.frame_image().height(), 200);
}

#[test]
fn new_frame_is_background() {
    let fr = FrameRenderer::new(simple_palette(), [1, 2, 3, 4]);
    let pixels = all_pixels(fr.frame_image());
    assert_eq!(pixels.len(), 12);
    assert!(pixels.iter().all(|(_, _, p)| *p == BLACK));
}

#[test]
fn corners_are_painted_and_nothing_else() {
    let palette = simple_palette();
    let mut fr = FrameRenderer::new(palette.clone(), [0, 0, 10, 10]);
    fr.consume(vic_output(0, 0, 2)).unwrap();
    fr.consume(vic_output(9, 0, 3)).unwrap();
    fr.consume(vic_output(0, 9, 4)).unwrap();
    fr.consume(vic_output(9, 9, 1)).unwrap();
    for (x, y, p) in all_pixels(fr.frame_image()) {
        let expected = match (x, y) {
            (0, 0) => palette[2],
            (9, 0) => palette[3],
            (0, 9) => palette[4],
            (9, 9) => palette[1],
            _ => BLACK,
        };
        assert_eq!(p, expected, "pixel ({}, {})", x, y);
    }
}

#[test]
fn events_one_unit_outside_each_edge_change_nothing() {
    let mut fr = FrameRenderer::new(simple_palette(), [4, 5, 6, 7]);
    fr.consume(vic_output(4, 5, 2)).unwrap();
    let before = all_pixels(fr.frame_image());
    assert_eq!(before[0].2, Rgba([0xFF, 0x00, 0x00, 0xFF]));
    for (x, y) in [(3, 8), (7, 4), (10, 8), (7, 12)] {
        assert_eq!(fr.consume(vic_output(x, y, 1)), Ok(()));
        assert_eq!(all_pixels(fr.frame_image()), before);
    }
}

#[test]
fn consuming_an_event_twice_is_like_once() {
    let mut once = FrameRenderer::new(simple_palette(), [2, 2, 5, 5]);
    let mut twice = FrameRenderer::new(simple_palette(), [2, 2, 5, 5]);
    once.consume(vic_output(3, 4, 3)).unwrap();
    twice.consume(vic_output(3, 4, 3)).unwrap();
    twice.consume(vic_output(3, 4, 3)).unwrap();
    assert_eq!(all_pixels(once.frame_image()), all_pixels(twice.frame_image()));
    assert_eq!(twice.frame_image().get_pixel(1, 2), Rgba([0x00, 0xFF, 0x00, 0xFF]));
}

#[test]
fn later_event_at_a_position_wins() {
    let mut fr = FrameRenderer::new(simple_palette(), [0, 0, 4, 4]);
    fr.consume(vic_output(2, 1, 2)).unwrap();
    fr.consume(vic_output(2, 1, 4)).unwrap();
    assert_eq!(fr.frame_image().get_pixel(2, 1), Rgba([0x00, 0x00, 0xFF, 0xFF]));
}

#[test]
fn invalid_color_code_inside_viewport_is_reported() {
    let mut fr = FrameRenderer::new(simple_palette(), [0, 0, 4, 4]);
    let before = all_pixels(fr.frame_image());
    assert_eq!(
        fr.consume(vic_output(1, 1, 5)),
        Err(RenderError::InvalidColorCode(5))
    );
    assert_eq!(all_pixels(fr.frame_image()), before);
}

#[test]
fn invalid_color_code_outside_viewport_is_clipped() {
    let mut fr = FrameRenderer::new(simple_palette(), [0, 0, 4, 4]);
    assert_eq!(fr.consume(vic_output(4, 1, 200)), Ok(()));
}

#[test]
fn empty_viewport_drops_every_event() {
    let mut fr = FrameRenderer::new(simple_palette(), [3, 3, 0, 0]);
    assert_eq!(fr.consume(vic_output(3, 3, 1)), Ok(()));
    assert_eq!(fr.frame_image().width(), 0);
    assert_eq!(fr.frame_image().height(), 0);
}

#[test]
fn viewport_at_the_end_of_the_coordinate_range() {
    let mut fr = FrameRenderer::new(simple_palette(), [usize::MAX - 1, usize::MAX - 1, 2, 2]);
    assert_eq!(fr.consume(vic_output(usize::MAX, usize::MAX, 2)), Ok(()));
    assert_eq!(fr.frame_image().get_pixel(1, 1), Rgba([0xFF, 0x00, 0x00, 0xFF]));
    assert_eq!(fr.consume(vic_output(0, 0, 1)), Ok(()));
}
