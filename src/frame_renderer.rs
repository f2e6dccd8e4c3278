//! A simulated TV screen: paints pixel events into an image, clipped to a
//! viewport.
use vstd::prelude::*;

use graphics::types::Rectangle;
use image::Rgba;

use crate::colors::Palette;
use crate::raster::{image_dimensions, image_pixels, pixel_index, FrameImage};

verus! {

/// One dot emitted by the video chip: a position in the chip's own
/// coordinates and a color code to look up in the palette.
#[derive(Debug, Clone, Copy, PartialEq, Eq, Structural)]
pub struct VicOutput {
    pub x: usize,
    pub y: usize,
    pub color: u8,
}

/// Why an event could not be painted.
#[derive(Debug, Clone, Copy, PartialEq, Eq, Structural)]
pub enum RenderError {
    /// The event lies inside the viewport, but its color code has no entry
    /// in the palette.
    InvalidColorCode(u8),
}

/// The color every pixel has before an event paints it: opaque black.
pub open spec fn background() -> Rgba<u8> {
    Rgba([0u8, 0u8, 0u8, 0xFFu8])
}

/// Whether `(x, y)` lies in `viewport`, given as `[x, y, width, height]`.
pub open spec fn in_viewport(viewport: Seq<usize>, x: int, y: int) -> bool {
    &&& viewport[0] <= x < viewport[0] + viewport[2]
    &&& viewport[1] <= y < viewport[1] + viewport[3]
}

/// A frame that no event has painted yet.
pub open spec fn blank_frame(viewport: Seq<usize>) -> Seq<Rgba<u8>> {
    Seq::new((viewport[2] * viewport[3]) as nat, |i: int| background())
}

/// Where the chip position `(x, y)` lands in the frame's row-by-row pixels.
pub open spec fn frame_index(viewport: Seq<usize>, x: int, y: int) -> int {
    pixel_index(viewport[2] as int, x - viewport[0], y - viewport[1])
}

/// An event inside the viewport whose color code is not in the palette.
pub open spec fn invalid_event(viewport: Seq<usize>, palette: Seq<Rgba<u8>>, e: VicOutput) -> bool {
    in_viewport(viewport, e.x as int, e.y as int) && e.color >= palette.len()
}

/// The frame `pixels` after event `e`: an event inside the viewport with a
/// valid color code overwrites its one pixel with the palette's entry; any
/// other event leaves the frame as it was.
pub open spec fn painted(
    pixels: Seq<Rgba<u8>>,
    viewport: Seq<usize>,
    palette: Seq<Rgba<u8>>,
    e: VicOutput,
) -> Seq<Rgba<u8>> {
    if in_viewport(viewport, e.x as int, e.y as int) && e.color < palette.len() {
        pixels.update(frame_index(viewport, e.x as int, e.y as int), palette[e.color as int])
    } else {
        pixels
    }
}

/// A point inside the viewport lands inside the frame.
proof fn lemma_frame_index_in_bounds(viewport: Seq<usize>, x: int, y: int)
    requires
        viewport.len() == 4,
        in_viewport(viewport, x, y),
    ensures
        0 <= frame_index(viewport, x, y) < viewport[2] * viewport[3],
{
    let w = viewport[2] as int;
    let h = viewport[3] as int;
    let dx = x - viewport[0];
    let dy = y - viewport[1];
    assert(0 <= dy * w + dx < w * h) by (nonlinear_arith)
        requires
            0 <= dx < w,
            0 <= dy < h,
    ;
}

/// Painting the same event twice leaves the frame as painting it once.
pub proof fn lemma_consume_idempotent(
    pixels: Seq<Rgba<u8>>,
    viewport: Seq<usize>,
    palette: Seq<Rgba<u8>>,
    e: VicOutput,
)
    requires
        viewport.len() == 4,
        pixels.len() == viewport[2] * viewport[3],
    ensures
        painted(painted(pixels, viewport, palette, e), viewport, palette, e) == painted(
            pixels,
            viewport,
            palette,
            e,
        ),
{
    if in_viewport(viewport, e.x as int, e.y as int) && e.color < palette.len() {
        lemma_frame_index_in_bounds(viewport, e.x as int, e.y as int);
        assert(painted(painted(pixels, viewport, palette, e), viewport, palette, e) =~= painted(
            pixels,
            viewport,
            palette,
            e,
        ));
    }
}

/// Of two events at one position, the later one decides the pixel: painting
/// code `c1` and then a valid code `c2` gives the frame that painting `c2`
/// alone gives, and inside the viewport the pixel holds `palette[c2]`.
pub proof fn lemma_last_write_wins(
    pixels: Seq<Rgba<u8>>,
    viewport: Seq<usize>,
    palette: Seq<Rgba<u8>>,
    x: usize,
    y: usize,
    c1: u8,
    c2: u8,
)
    requires
        viewport.len() == 4,
        pixels.len() == viewport[2] * viewport[3],
        c2 < palette.len(),
    ensures
        painted(
            painted(pixels, viewport, palette, VicOutput { x, y, color: c1 }),
            viewport,
            palette,
            VicOutput { x, y, color: c2 },
        ) == painted(pixels, viewport, palette, VicOutput { x, y, color: c2 }),
        in_viewport(viewport, x as int, y as int) ==> painted(
            painted(pixels, viewport, palette, VicOutput { x, y, color: c1 }),
            viewport,
            palette,
            VicOutput { x, y, color: c2 },
        )[frame_index(viewport, x as int, y as int)] == palette[c2 as int],
{
    let first = painted(pixels, viewport, palette, VicOutput { x, y, color: c1 });
    let second = painted(first, viewport, palette, VicOutput { x, y, color: c2 });
    if in_viewport(viewport, x as int, y as int) {
        lemma_frame_index_in_bounds(viewport, x as int, y as int);
        assert(second =~= painted(pixels, viewport, palette, VicOutput { x, y, color: c2 }));
    }
}

/// This structure simulates a TV display. It consumes [`VicOutput`] events
/// and renders them on an image surface the size of its viewport.
pub struct FrameRenderer {
    palette: Palette,
    viewport: Rectangle<usize>,
    frame: FrameImage,
}

impl FrameRenderer {
    /// The palette that color codes are looked up in.
    pub closed spec fn palette_view(&self) -> Seq<Rgba<u8>> {
        self.palette@
    }

    /// The viewport, as `[x, y, width, height]`.
    pub closed spec fn viewport_view(&self) -> Seq<usize> {
        self.viewport@
    }

    /// The frame's pixels, row by row from the viewport's top left corner.
    pub closed spec fn pixels(&self) -> Seq<Rgba<u8>> {
        image_pixels(self.frame)
    }

    /// The image is exactly the viewport's size.
    pub closed spec fn wf(&self) -> bool {
        &&& self.viewport[2] <= u32::MAX
        &&& self.viewport[3] <= u32::MAX
        &&& image_dimensions(self.frame) == (self.viewport[2] as u32, self.viewport[3] as u32)
        &&& image_pixels(self.frame).len() == self.viewport[2] * self.viewport[3]
    }

    /// Creates a renderer for `viewport` (`[x, y, width, height]` in the
    /// chip's coordinates) whose frame is all background.
    pub fn new(palette: Palette, viewport: Rectangle<usize>) -> (r: Self)
        requires
            viewport[2] <= u32::MAX,
            viewport[3] <= u32::MAX,
            4 * viewport[2] * viewport[3] <= isize::MAX,
        ensures
            r.wf(),
            r.palette_view() == palette@,
            r.viewport_view() == viewport@,
            r.pixels() == blank_frame(viewport@),
    {
        let black = Rgba([0x00u8, 0x00u8, 0x00u8, 0xFFu8]);
        let frame = FrameImage::filled(viewport[2] as u32, viewport[3] as u32, black);
        let r = Self { palette, viewport, frame };
        assert(r.pixels() =~= blank_frame(viewport@));
        r
    }

    /// Paints one event. An event outside the viewport is dropped silently;
    /// one inside overwrites its pixel with the palette's entry for its color
    /// code, or fails with `InvalidColorCode` where the palette has none.
    pub fn consume(&mut self, vic_output: VicOutput) -> (r: Result<(), RenderError>)
        requires
            old(self).wf(),
        ensures
            final(self).wf(),
            final(self).palette_view() == old(self).palette_view(),
            final(self).viewport_view() == old(self).viewport_view(),
            final(self).pixels() == painted(
                old(self).pixels(),
                old(self).viewport_view(),
                old(self).palette_view(),
                vic_output,
            ),
            r is Err <==> invalid_event(
                old(self).viewport_view(),
                old(self).palette_view(),
                vic_output,
            ),
            r is Err ==> r == Err::<(), RenderError>(
                RenderError::InvalidColorCode(vic_output.color),
            ),
    {
        let x0 = self.viewport[0];
        let y0 = self.viewport[1];
        let width = self.viewport[2];
        let height = self.viewport[3];
        let x = vic_output.x;
        let y = vic_output.y;
        if x >= x0 && x - x0 < width && y >= y0 && y - y0 < height {
            let code = vic_output.color as usize;
            if code < self.palette.len() {
                proof {
                    lemma_frame_index_in_bounds(self.viewport@, x as int, y as int);
                }
                let color = self.palette[code];
                self.frame.put_pixel((x - x0) as u32, (y - y0) as u32, color);
                Ok(())
            } else {
                Err(RenderError::InvalidColorCode(vic_output.color))
            }
        } else {
            Ok(())
        }
    }

    /// The frame as painted so far.
    pub fn frame_image(&self) -> (r: &FrameImage)
        requires
            self.wf(),
        ensures
            image_pixels(*r) == self.pixels(),
            image_dimensions(*r) == (self.viewport_view()[2] as u32, self.viewport_view()[3] as u32),
    {
        &self.frame
    }
}

} // verus!
