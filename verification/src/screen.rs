//! The drawing surface of the board with the controller in the open: the
//! caller binds, enables and reloads the layer itself.

use vstd::prelude::*;
use core::convert::Infallible;
use crate::config::{disco_screen_config, disco_screen_config_spec, HEIGHT, WIDTH};
use crate::controller::{ControllerView, DisplayController, Layer, PixelFormat};
use crate::draw::{draw_pixels, lemma_draw_all_keeps};
use crate::geometry::{Pixel, Size};

verus! {

/// The panel of the board behind a clipping pixel interface. `new` builds
/// the controller and binds nothing: before the first pixel is drawn, the
/// caller binds a framebuffer to layer 1 through `controller`.
pub struct Stm32F7DiscoDisplay {
    pub controller: DisplayController,
}

impl Stm32F7DiscoDisplay {
    /// The display can be drawn on: its controller drives the board's panel
    /// and layer 1 has a buffer.
    pub open spec fn ready(&self) -> bool {
        &&& self.controller.wf()
        &&& self.controller@.config == disco_screen_config_spec()
        &&& self.controller@.bound(Layer::L1)
    }

    /// Builds the controller for the board's panel. No layer is bound.
    pub fn new() -> (display: Stm32F7DiscoDisplay)
        ensures
            display.controller.wf(),
            display.controller@ == ControllerView::fresh(
                disco_screen_config_spec(),
                PixelFormat::RGB565,
            ),
    {
        let controller = DisplayController::new(disco_screen_config(), PixelFormat::RGB565);
        Stm32F7DiscoDisplay { controller }
    }

    /// Draws `pixels` on layer 1, first to last. Pixels outside the panel are
    /// dropped; the answer is always `Ok`.
    pub fn draw_iter(&mut self, pixels: &[Pixel]) -> (result: Result<(), Infallible>)
        requires
            old(self).ready(),
        ensures
            final(self).ready(),
            result is Ok,
            final(self).controller@ == old(self).controller@.draw_all(Layer::L1, pixels@),
    {
        proof {
            lemma_draw_all_keeps(self.controller@, Layer::L1, pixels@);
        }
        draw_pixels(&mut self.controller, Layer::L1, pixels);
        Ok(())
    }

    /// The drawable area: that of the panel, whatever has been drawn.
    pub fn size(&self) -> (size: Size)
        ensures
            size == (Size { width: 480, height: 272 }),
    {
        Size::new(WIDTH as u32, HEIGHT as u32)
    }
}

} // verus!
