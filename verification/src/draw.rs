//! Clipped drawing: what a stream of coloured points does to a layer.
//!
//! Drawing code hands over points that may lie anywhere. A point inside the
//! panel has its colour packed and written; a point outside is dropped, which
//! is no error.

use vstd::prelude::*;
use crate::config::DisplayConfig;
use crate::controller::{lemma_write_then_read, ControllerView, DisplayController, Layer};
use crate::framebuffer::lemma_cell_index;
use crate::geometry::{Pixel, Point};

verus! {

impl Pixel {
    /// Whether the pixel is aimed at cell `(x, y)`.
    pub open spec fn hits(self, x: int, y: int) -> bool {
        self.0.x == x && self.0.y == y
    }
}

/// The word of a cell after `pixels` have been drawn in order, where the
/// cell is `(x, y)` and held `before`: the colour of the last pixel aimed at
/// the cell, or `before` if none is.
pub open spec fn cell_after(before: u16, pixels: Seq<Pixel>, x: int, y: int) -> u16
    decreases pixels.len(),
{
    if pixels.len() == 0 {
        before
    } else if pixels.last().hits(x, y) {
        pixels.last().1.packed()
    } else {
        cell_after(before, pixels.drop_last(), x, y)
    }
}

impl ControllerView {
    /// The controller after `pixel` has been drawn on `layer`: written if it
    /// lies inside the panel, dropped if not.
    pub open spec fn draw(self, layer: Layer, pixel: Pixel) -> ControllerView {
        if self.config.contains(pixel.0.x as int, pixel.0.y as int) {
            self.write(layer, pixel.0.x as int, pixel.0.y as int, pixel.1.packed())
        } else {
            self
        }
    }

    /// The controller after `pixels` have been drawn on `layer`, first to
    /// last.
    pub open spec fn draw_all(self, layer: Layer, pixels: Seq<Pixel>) -> ControllerView
        decreases pixels.len(),
    {
        if pixels.len() == 0 {
            self
        } else {
            self.draw_all(layer, pixels.drop_last()).draw(layer, pixels.last())
        }
    }
}

/// The cell that `point` falls on, or `None` for a point outside the panel.
pub fn clip(config: &DisplayConfig, point: Point) -> (cell: Option<(usize, usize)>)
    ensures
        cell == if config.contains(point.x as int, point.y as int) {
            Some((point.x as usize, point.y as usize))
        } else {
            None::<(usize, usize)>
        },
{
    if point.x >= 0 && point.x < config.active_width as i32 && point.y >= 0 && point.y
        < config.active_height as i32 {
        Some((point.x as usize, point.y as usize))
    } else {
        None
    }
}

/// Draws one pixel on `layer`.
pub fn draw_pixel(controller: &mut DisplayController, layer: Layer, pixel: Pixel)
    requires
        old(controller).wf(),
        old(controller)@.bound(layer),
    ensures
        final(controller).wf(),
        final(controller)@ == old(controller)@.draw(layer, pixel),
{
    let config = controller.config();
    match clip(&config, pixel.0) {
        Some((x, y)) => {
            let raw = pixel.1.into_storage();
            controller.write_pixel(layer, x, y, raw);
        },
        None => {},
    }
}

/// Draws `pixels` on `layer`, first to last.
pub fn draw_pixels(controller: &mut DisplayController, layer: Layer, pixels: &[Pixel])
    requires
        old(controller).wf(),
        old(controller)@.bound(layer),
    ensures
        final(controller).wf(),
        final(controller)@ == old(controller)@.draw_all(layer, pixels@),
{
    let count = pixels.len();
    let mut done: usize = 0;
    while done < count
        invariant
            count == pixels@.len(),
            done <= count,
            controller.wf(),
            controller@.bound(layer),
            controller@ == old(controller)@.draw_all(layer, pixels@.take(done as int)),
        decreases count - done,
    {
        proof {
            let next = pixels@.take(done + 1);
            assert(next.drop_last() =~= pixels@.take(done as int));
            assert(next.last() == pixels@[done as int]);
            lemma_draw_keeps(controller@, layer, pixels@[done as int]);
        }
        draw_pixel(controller, layer, pixels[done]);
        done = done + 1;
    }
    assert(pixels@.take(count as int) =~= pixels@);
}

/// Drawing changes words of the one layer and nothing else: the timing, the
/// encodings, the state of every layer, the other layer's buffer and the
/// length of the frame stay.
pub proof fn lemma_draw_keeps(controller: ControllerView, layer: Layer, pixel: Pixel)
    requires
        controller.wf(),
        controller.bound(layer),
    ensures
        controller.draw(layer, pixel).wf(),
        controller.draw(layer, pixel).config == controller.config,
        controller.draw(layer, pixel).pixel_format == controller.pixel_format,
        forall|any: Layer| #[trigger]
            controller.draw(layer, pixel).layer(any).state == controller.layer(any).state,
        forall|other: Layer|
            other != layer ==> #[trigger] controller.draw(layer, pixel).layer(other)
                == controller.layer(other),
        controller.draw(layer, pixel).frame(layer).len() == controller.frame(layer).len(),
{
    if controller.config.contains(pixel.0.x as int, pixel.0.y as int) {
        lemma_cell_index(
            controller.config.active_width as int,
            controller.config.active_height as int,
            pixel.0.x as int,
            pixel.0.y as int,
            0,
            0,
        );
    }
}

/// A pixel drawn inside the panel is read back from its cell as the packed
/// word of its colour, and every other cell keeps its word.
pub proof fn lemma_draw_then_read(
    controller: ControllerView,
    layer: Layer,
    pixel: Pixel,
    u: int,
    v: int,
)
    requires
        controller.wf(),
        controller.bound(layer),
        controller.config.contains(pixel.0.x as int, pixel.0.y as int),
        controller.config.contains(u, v),
    ensures
        controller.draw(layer, pixel).cell(layer, pixel.0.x as int, pixel.0.y as int)
            == pixel.1.packed(),
        !pixel.hits(u, v) ==> controller.draw(layer, pixel).cell(layer, u, v) == controller.cell(
            layer,
            u,
            v,
        ),
{
    lemma_write_then_read(
        controller,
        layer,
        pixel.0.x as int,
        pixel.0.y as int,
        pixel.1.packed(),
        u,
        v,
    );
}

/// A pixel outside the panel, be it at a negative coordinate or far beyond
/// the last row or column, changes nothing.
pub proof fn lemma_draw_outside(controller: ControllerView, layer: Layer, pixel: Pixel)
    requires
        !controller.config.contains(pixel.0.x as int, pixel.0.y as int),
    ensures
        controller.draw(layer, pixel) == controller,
{
}

/// A stream of pixels that all lie outside the panel changes nothing.
pub proof fn lemma_draw_all_outside(controller: ControllerView, layer: Layer, pixels: Seq<Pixel>)
    requires
        forall|i: int|
            0 <= i < pixels.len() ==> !controller.config.contains(
                (#[trigger] pixels[i]).0.x as int,
                pixels[i].0.y as int,
            ),
    ensures
        controller.draw_all(layer, pixels) == controller,
    decreases pixels.len(),
{
    if pixels.len() > 0 {
        lemma_draw_all_outside(controller, layer, pixels.drop_last());
    }
}

/// Drawing a stream changes words of the one layer and nothing else.
pub proof fn lemma_draw_all_keeps(controller: ControllerView, layer: Layer, pixels: Seq<Pixel>)
    requires
        controller.wf(),
        controller.bound(layer),
    ensures
        controller.draw_all(layer, pixels).wf(),
        controller.draw_all(layer, pixels).config == controller.config,
        controller.draw_all(layer, pixels).pixel_format == controller.pixel_format,
        forall|any: Layer| #[trigger]
            controller.draw_all(layer, pixels).layer(any).state == controller.layer(any).state,
        forall|other: Layer|
            other != layer ==> #[trigger] controller.draw_all(layer, pixels).layer(other)
                == controller.layer(other),
        controller.draw_all(layer, pixels).frame(layer).len() == controller.frame(layer).len(),
    decreases pixels.len(),
{
    if pixels.len() > 0 {
        lemma_draw_all_keeps(controller, layer, pixels.drop_last());
        lemma_draw_keeps(controller.draw_all(layer, pixels.drop_last()), layer, pixels.last());
    }
}

/// After a stream has been drawn, a cell of the panel holds the packed colour
/// of the last pixel of the stream that was aimed at it; a cell that no pixel
/// was aimed at holds what it held before.
pub proof fn lemma_draw_all_cell(
    controller: ControllerView,
    layer: Layer,
    pixels: Seq<Pixel>,
    x: int,
    y: int,
)
    requires
        controller.wf(),
        controller.bound(layer),
        controller.config.contains(x, y),
    ensures
        controller.draw_all(layer, pixels).cell(layer, x, y) == cell_after(
            controller.cell(layer, x, y),
            pixels,
            x,
            y,
        ),
    decreases pixels.len(),
{
    if pixels.len() > 0 {
        let before = controller.draw_all(layer, pixels.drop_last());
        let pixel = pixels.last();
        lemma_draw_all_cell(controller, layer, pixels.drop_last(), x, y);
        lemma_draw_all_keeps(controller, layer, pixels.drop_last());
        if before.config.contains(pixel.0.x as int, pixel.0.y as int) {
            lemma_draw_then_read(before, layer, pixel, x, y);
        }
    }
}

} // verus!
