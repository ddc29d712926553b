//! The drawing surface of the board: a started controller behind a clipping
//! pixel interface.

use vstd::prelude::*;
use core::convert::Infallible;
use crate::config::{disco_screen_config, disco_screen_config_spec, HEIGHT, WIDTH};
use crate::controller::{ControllerView, DisplayController, Layer, PixelFormat};
use crate::draw::{draw_pixels, lemma_draw_all_keeps};
use crate::framebuffer::Framebuffer;
use crate::geometry::{Pixel, Size};

verus! {

/// The panel of the board, started and ready to be drawn on. It owns its
/// framebuffer; layer 1 shows it.
pub struct Display {
    controller: DisplayController,
}

impl View for Display {
    type V = ControllerView;

    closed spec fn view(&self) -> ControllerView {
        self.controller@
    }
}

impl Display {
    /// The frame of a display that nothing has been drawn on: all zero.
    pub open spec fn blank() -> Seq<u16> {
        Seq::new((WIDTH * HEIGHT) as nat, |i: int| 0u16)
    }

    /// The controller of a display that has just been started: built for the
    /// board's panel, then layer 1 bound to a blank buffer, enabled and
    /// reloaded, in this order.
    pub open spec fn started() -> ControllerView {
        ControllerView::fresh(disco_screen_config_spec(), PixelFormat::RGB565).bind(
            Layer::L1,
            PixelFormat::RGB565,
            Self::blank(),
        ).enable(Layer::L1).reload()
    }

    /// The buffers behind the display are whole.
    pub closed spec fn buffers_wf(&self) -> bool {
        self.controller.buffers_wf()
    }

    /// The invariant of the display: it drives the board's panel, and layer
    /// 1 is shown.
    pub open spec fn wf(&self) -> bool {
        &&& self.buffers_wf()
        &&& self@.wf()
        &&& self@.config == disco_screen_config_spec()
        &&& self@.layer(Layer::L1).state is Presenting
    }

    /// The words that the panel shows.
    pub open spec fn frame(&self) -> Seq<u16> {
        self@.frame(Layer::L1)
    }

    /// Starts the display: builds the controller for the board's panel, binds
    /// a zeroed framebuffer to layer 1, enables the layer and reloads.
    pub fn new() -> (display: Display)
        ensures
            display.wf(),
            display@ == Self::started(),
            display.frame() == Self::blank(),
    {
        let mut controller = DisplayController::new(disco_screen_config(), PixelFormat::RGB565);
        let framebuffer = Framebuffer::new(WIDTH, HEIGHT);
        let bound = controller.bind_layer(Layer::L1, framebuffer, PixelFormat::RGB565);
        assert(bound is Ok);
        controller.enable_layer(Layer::L1);
        controller.reload();
        Display { controller }
    }

    /// Draws `pixels`, first to last. Pixels outside the panel are dropped;
    /// the answer is always `Ok`.
    pub fn draw_iter(&mut self, pixels: &[Pixel]) -> (result: Result<(), Infallible>)
        requires
            old(self).wf(),
        ensures
            final(self).wf(),
            result is Ok,
            final(self)@ == old(self)@.draw_all(Layer::L1, pixels@),
    {
        proof {
            lemma_draw_all_keeps(self@, Layer::L1, pixels@);
        }
        draw_pixels(&mut self.controller, Layer::L1, pixels);
        Ok(())
    }

    /// The drawable area: that of the panel, whatever has been drawn.
    pub fn size(&self) -> (size: Size)
        ensures
            size == (Size { width: 480, height: 272 }),
    {
        Size::new(WIDTH as u32, HEIGHT as u32)
    }

    /// The controller, for reading.
    pub fn controller(&self) -> (controller: &DisplayController)
        ensures
            controller@ == self@,
            self.wf() ==> controller.wf(),
    {
        &self.controller
    }
}

} // verus!
