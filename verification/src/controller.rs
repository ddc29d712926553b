//! The display controller handle: timing, layer bindings and the per-layer
//! state machine `Unconfigured -> Configured -> Enabled -> Presenting`.
//!
//! A layer is bound once. A second `bind_layer` on a layer that already has a
//! buffer is rejected with [`BindError::AlreadyBound`] and changes nothing;
//! there is no way to unbind.

use vstd::prelude::*;
use crate::config::DisplayConfig;
use crate::framebuffer::{cell_index, lemma_cell_index, Framebuffer};

verus! {

/// The compositing planes of the controller.
#[derive(Clone, Copy, Debug, PartialEq, Eq, Structural)]
pub enum Layer {
    L1,
    L2,
}

/// Pixel encodings that the controller can scan out.
///
/// * `L8`: 8-bit luminance or CLUT
/// * `AL44`: 4-bit alpha + 4-bit luminance
/// * `AL88`: 8-bit alpha + 8-bit luminance
#[derive(Clone, Copy, Debug, PartialEq, Eq, Structural)]
pub enum PixelFormat {
    ARGB8888,
    RGB565,
    ARGB1555,
    ARGB4444,
    L8,
    AL44,
    AL88,
}

/// How far a layer has come on its way to the panel.
#[derive(Clone, Copy, Debug, PartialEq, Eq, Structural)]
pub enum DriverState {
    /// No buffer is bound.
    Unconfigured,
    /// A buffer is bound; the layer is not active.
    Configured,
    /// The layer is marked active; the panel shows it after the next reload.
    Enabled,
    /// A reload has committed the layer: the hardware scans its buffer.
    Presenting,
}

impl DriverState {
    /// Position of the state on the one-way path.
    pub open spec fn rank(self) -> nat {
        match self {
            DriverState::Unconfigured => 0,
            DriverState::Configured => 1,
            DriverState::Enabled => 2,
            DriverState::Presenting => 3,
        }
    }

    /// The state after the layer has been marked active.
    pub open spec fn enabled(self) -> DriverState {
        if self is Configured {
            DriverState::Enabled
        } else {
            self
        }
    }

    /// The state after a reload.
    pub open spec fn reloaded(self) -> DriverState {
        if self is Enabled {
            DriverState::Presenting
        } else {
            self
        }
    }
}

/// Why a buffer was not bound.
#[derive(Clone, Copy, Debug, PartialEq, Eq, Structural)]
pub enum BindError {
    /// The layer already has a buffer.
    AlreadyBound,
    /// The buffer's width or height is not that of the panel.
    SizeMismatch,
}

/// What a bound layer scans: the encoding and the words of its buffer.
pub struct BindingView {
    pub pixel_format: PixelFormat,
    pub frame: Seq<u16>,
}

/// One layer, as contracts see it.
pub struct LayerView {
    pub state: DriverState,
    pub binding: Option<BindingView>,
}

/// The controller, as contracts see it.
pub struct ControllerView {
    pub config: DisplayConfig,
    pub pixel_format: PixelFormat,
    pub layer1: LayerView,
    pub layer2: LayerView,
}

impl LayerView {
    /// A layer has a buffer exactly when it has left `Unconfigured`, and the
    /// buffer covers the panel.
    pub open spec fn wf(self, config: DisplayConfig) -> bool {
        match self.binding {
            Some(binding) => !(self.state is Unconfigured) && binding.frame.len()
                == config.pixel_count(),
            None => self.state is Unconfigured,
        }
    }

    /// The frame that the panel shows from this layer, if it shows one.
    pub open spec fn presented(self) -> Option<Seq<u16>> {
        match self.binding {
            Some(binding) if self.state is Presenting => Some(binding.frame),
            _ => None,
        }
    }
}

impl ControllerView {
    /// A controller that has just been built: timing set, no layer bound.
    pub open spec fn fresh(config: DisplayConfig, pixel_format: PixelFormat) -> ControllerView {
        ControllerView {
            config,
            pixel_format,
            layer1: LayerView { state: DriverState::Unconfigured, binding: None },
            layer2: LayerView { state: DriverState::Unconfigured, binding: None },
        }
    }

    /// The timing is valid and both layers are well formed for it.
    pub open spec fn wf(self) -> bool {
        &&& self.config.valid()
        &&& self.layer1.wf(self.config)
        &&& self.layer2.wf(self.config)
    }

    /// The layer of that name.
    pub open spec fn layer(self, layer: Layer) -> LayerView {
        match layer {
            Layer::L1 => self.layer1,
            Layer::L2 => self.layer2,
        }
    }

    /// The controller with `view` in the place of `layer`.
    pub open spec fn with_layer(self, layer: Layer, view: LayerView) -> ControllerView {
        match layer {
            Layer::L1 => ControllerView { layer1: view, ..self },
            Layer::L2 => ControllerView { layer2: view, ..self },
        }
    }

    /// Whether `layer` has a buffer.
    pub open spec fn bound(self, layer: Layer) -> bool {
        !(self.layer(layer).state is Unconfigured)
    }

    /// The words of the buffer of `layer`; empty while it has none.
    pub open spec fn frame(self, layer: Layer) -> Seq<u16> {
        match self.layer(layer).binding {
            Some(binding) => binding.frame,
            None => Seq::empty(),
        }
    }

    /// The word of cell `(x, y)` of `layer`.
    pub open spec fn cell(self, layer: Layer, x: int, y: int) -> u16 {
        self.frame(layer)[cell_index(self.config.active_width as int, x, y)]
    }

    /// The answer to a request to bind a buffer of `width` by `height` words
    /// to `layer`.
    pub open spec fn bind_result(self, layer: Layer, width: u16, height: u16) -> Result<
        (),
        BindError,
    > {
        if self.bound(layer) {
            Err(BindError::AlreadyBound)
        } else if width != self.config.active_width || height != self.config.active_height {
            Err(BindError::SizeMismatch)
        } else {
            Ok(())
        }
    }

    /// The controller after `frame` has been bound to `layer`.
    pub open spec fn bind(self, layer: Layer, pixel_format: PixelFormat, frame: Seq<u16>)
        -> ControllerView {
        self.with_layer(
            layer,
            LayerView {
                state: DriverState::Configured,
                binding: Some(BindingView { pixel_format, frame }),
            },
        )
    }

    /// The controller after `layer` has been marked active.
    pub open spec fn enable(self, layer: Layer) -> ControllerView {
        self.with_layer(
            layer,
            LayerView { state: self.layer(layer).state.enabled(), ..self.layer(layer) },
        )
    }

    /// The controller after a reload: every layer that was marked active is
    /// now shown.
    pub open spec fn reload(self) -> ControllerView {
        ControllerView {
            layer1: LayerView { state: self.layer1.state.reloaded(), ..self.layer1 },
            layer2: LayerView { state: self.layer2.state.reloaded(), ..self.layer2 },
            ..self
        }
    }

    /// The controller after `raw` has been stored in cell `(x, y)` of
    /// `layer`.
    pub open spec fn write(self, layer: Layer, x: int, y: int, raw: u16) -> ControllerView {
        match self.layer(layer).binding {
            Some(binding) => self.with_layer(
                layer,
                LayerView {
                    binding: Some(
                        BindingView {
                            frame: binding.frame.update(
                                cell_index(self.config.active_width as int, x, y),
                                raw,
                            ),
                            ..binding
                        },
                    ),
                    ..self.layer(layer)
                },
            ),
            None => self,
        }
    }

    /// The frame that the panel shows from `layer`, if it shows one.
    pub open spec fn presented(self, layer: Layer) -> Option<Seq<u16>> {
        self.layer(layer).presented()
    }
}

/// A buffer in the service of a layer.
struct LayerBinding {
    framebuffer: Framebuffer,
    pixel_format: PixelFormat,
}

struct LayerSlot {
    state: DriverState,
    binding: Option<LayerBinding>,
}

impl LayerSlot {
    spec fn model(&self) -> LayerView {
        LayerView {
            state: self.state,
            binding: match self.binding {
                Some(binding) => Some(
                    BindingView {
                        pixel_format: binding.pixel_format,
                        frame: binding.framebuffer@,
                    },
                ),
                None => None,
            },
        }
    }

    spec fn wf(&self, config: DisplayConfig) -> bool {
        match self.binding {
            Some(binding) => {
                &&& !(self.state is Unconfigured)
                &&& binding.framebuffer.wf()
                &&& binding.framebuffer.width() == config.active_width
                &&& binding.framebuffer.height() == config.active_height
            },
            None => self.state is Unconfigured,
        }
    }

    proof fn lemma_model_wf(&self, config: DisplayConfig)
        requires
            self.wf(config),
        ensures
            self.model().wf(config),
    {
        match self.binding {
            Some(binding) => {
                binding.framebuffer.lemma_len();
            },
            None => {},
        }
    }

    fn empty() -> (slot: LayerSlot)
        ensures
            slot.model() == (LayerView { state: DriverState::Unconfigured, binding: None }),
            forall|config: DisplayConfig| slot.wf(config),
    {
        LayerSlot { state: DriverState::Unconfigured, binding: None }
    }

    fn store(&mut self, config: DisplayConfig, x: usize, y: usize, raw: u16)
        requires
            old(self).wf(config),
            old(self).binding is Some,
            x < config.active_width,
            y < config.active_height,
        ensures
            final(self).wf(config),
            final(self).model().state == old(self).model().state,
            final(self).model().binding == Some(
                BindingView {
                    frame: old(self).model().binding->0.frame.update(
                        cell_index(config.active_width as int, x as int, y as int),
                        raw,
                    ),
                    ..old(self).model().binding->0
                },
            ),
    {
        match &mut self.binding {
            Some(binding) => {
                binding.framebuffer.store(x, y, raw);
            },
            None => {},
        }
    }

    fn load(&self, config: DisplayConfig, x: usize, y: usize) -> (raw: u16)
        requires
            self.wf(config),
            self.binding is Some,
            x < config.active_width,
            y < config.active_height,
        ensures
            raw == self.model().binding->0.frame[cell_index(
                config.active_width as int,
                x as int,
                y as int,
            )],
    {
        match &self.binding {
            Some(binding) => binding.framebuffer.load(x, y),
            None => 0,
        }
    }

    fn enable(&mut self)
        ensures
            final(self).model() == (LayerView {
                state: old(self).model().state.enabled(),
                ..old(self).model()
            }),
            forall|config: DisplayConfig| old(self).wf(config) ==> final(self).wf(config),
    {
        match self.state {
            DriverState::Configured => {
                self.state = DriverState::Enabled;
            },
            _ => {},
        }
    }

    fn reload(&mut self)
        ensures
            final(self).model() == (LayerView {
                state: old(self).model().state.reloaded(),
                ..old(self).model()
            }),
            forall|config: DisplayConfig| old(self).wf(config) ==> final(self).wf(config),
    {
        match self.state {
            DriverState::Enabled => {
                self.state = DriverState::Presenting;
            },
            _ => {},
        }
    }
}

/// The handle through which the layers of the display are configured and
/// every pixel is written.
pub struct DisplayController {
    config: DisplayConfig,
    pixel_format: PixelFormat,
    layer1: LayerSlot,
    layer2: LayerSlot,
}

impl View for DisplayController {
    type V = ControllerView;

    closed spec fn view(&self) -> ControllerView {
        ControllerView {
            config: self.config,
            pixel_format: self.pixel_format,
            layer1: self.layer1.model(),
            layer2: self.layer2.model(),
        }
    }
}

impl DisplayController {
    /// The buffers of the bound layers are whole and have the panel's size.
    pub closed spec fn buffers_wf(&self) -> bool {
        self.layer1.wf(self.config) && self.layer2.wf(self.config)
    }

    /// The invariant of the handle.
    pub open spec fn wf(&self) -> bool {
        self@.wf() && self.buffers_wf()
    }

    /// A handle for a panel with the timing `config`. No layer is bound yet.
    pub fn new(config: DisplayConfig, pixel_format: PixelFormat) -> (controller: DisplayController)
        requires
            config.valid(),
        ensures
            controller.wf(),
            controller@ == ControllerView::fresh(config, pixel_format),
    {
        DisplayController {
            config,
            pixel_format,
            layer1: LayerSlot::empty(),
            layer2: LayerSlot::empty(),
        }
    }

    /// The timing that the handle was built with.
    pub fn config(&self) -> (config: DisplayConfig)
        ensures
            config == self@.config,
    {
        self.config
    }

    /// The encoding that the handle was built for.
    pub fn pixel_format(&self) -> (pixel_format: PixelFormat)
        ensures
            pixel_format == self@.pixel_format,
    {
        self.pixel_format
    }

    /// The state of `layer`.
    pub fn state(&self, layer: Layer) -> (state: DriverState)
        ensures
            state == self@.layer(layer).state,
    {
        match layer {
            Layer::L1 => self.layer1.state,
            Layer::L2 => self.layer2.state,
        }
    }

    /// The encoding that `layer` is scanned as, once it is bound.
    pub fn layer_format(&self, layer: Layer) -> (pixel_format: Option<PixelFormat>)
        ensures
            pixel_format == match self@.layer(layer).binding {
                Some(binding) => Some(binding.pixel_format),
                None => None,
            },
    {
        let slot = match layer {
            Layer::L1 => &self.layer1,
            Layer::L2 => &self.layer2,
        };
        match &slot.binding {
            Some(binding) => Some(binding.pixel_format),
            None => None,
        }
    }

    /// The words of the buffer of `layer`, row after row, once it is bound.
    pub fn frame(&self, layer: Layer) -> (frame: Option<&[u16]>)
        ensures
            match frame {
                Some(words) => self@.layer(layer).binding is Some && words@ == self@.frame(layer),
                None => self@.layer(layer).binding is None,
            },
    {
        let slot = match layer {
            Layer::L1 => &self.layer1,
            Layer::L2 => &self.layer2,
        };
        match &slot.binding {
            Some(binding) => Some(binding.framebuffer.as_slice()),
            None => None,
        }
    }

    /// Binds `framebuffer` to `layer`, to be scanned as `pixel_format`.
    ///
    /// A layer is bound once: if it has a buffer already, or if the buffer
    /// has not the size of the panel, the call is rejected, the handle stays
    /// as it was and the buffer is dropped.
    pub fn bind_layer(
        &mut self,
        layer: Layer,
        framebuffer: Framebuffer,
        pixel_format: PixelFormat,
    ) -> (result: Result<(), BindError>)
        requires
            old(self).wf(),
            framebuffer.wf(),
        ensures
            final(self).wf(),
            result == old(self)@.bind_result(layer, framebuffer.width(), framebuffer.height()),
            final(self)@ == if result is Ok {
                old(self)@.bind(layer, pixel_format, framebuffer@)
            } else {
                old(self)@
            },
    {
        let unbound = match layer {
            Layer::L1 => self.layer1.binding.is_none(),
            Layer::L2 => self.layer2.binding.is_none(),
        };
        if !unbound {
            return Err(BindError::AlreadyBound);
        }
        if framebuffer.stride() != self.config.active_width as usize || framebuffer.rows()
            != self.config.active_height as usize {
            return Err(BindError::SizeMismatch);
        }
        proof {
            framebuffer.lemma_len();
        }
        let slot = LayerSlot {
            state: DriverState::Configured,
            binding: Some(LayerBinding { framebuffer, pixel_format }),
        };
        match layer {
            Layer::L1 => {
                self.layer1 = slot;
            },
            Layer::L2 => {
                self.layer2 = slot;
            },
        }
        Ok(())
    }

    /// Marks the bound `layer` active: the panel shows its buffer once the
    /// configuration has been reloaded.
    pub fn enable_layer(&mut self, layer: Layer)
        requires
            old(self).wf(),
            old(self)@.bound(layer),
        ensures
            final(self).wf(),
            final(self)@ == old(self)@.enable(layer),
    {
        match layer {
            Layer::L1 => self.layer1.enable(),
            Layer::L2 => self.layer2.enable(),
        }
        proof {
            self.layer1.lemma_model_wf(self.config);
            self.layer2.lemma_model_wf(self.config);
        }
    }

    /// Stores the packed word `raw` in cell `(x, y)` of the buffer of `layer`.
    /// This is one store with no test of its own: the caller keeps the
    /// coordinates inside the panel.
    pub fn write_pixel(&mut self, layer: Layer, x: usize, y: usize, raw: u16)
        requires
            old(self).wf(),
            old(self)@.bound(layer),
            old(self)@.config.contains(x as int, y as int),
        ensures
            final(self).wf(),
            final(self)@ == old(self)@.write(layer, x as int, y as int, raw),
    {
        match layer {
            Layer::L1 => self.layer1.store(self.config, x, y, raw),
            Layer::L2 => self.layer2.store(self.config, x, y, raw),
        }
        proof {
            self.layer1.lemma_model_wf(self.config);
            self.layer2.lemma_model_wf(self.config);
        }
    }

    /// Reads the word of cell `(x, y)` of the buffer of `layer`.
    pub fn read_pixel(&self, layer: Layer, x: usize, y: usize) -> (raw: u16)
        requires
            self.wf(),
            self@.bound(layer),
            self@.config.contains(x as int, y as int),
        ensures
            raw == self@.cell(layer, x as int, y as int),
    {
        match layer {
            Layer::L1 => self.layer1.load(self.config, x, y),
            Layer::L2 => self.layer2.load(self.config, x, y),
        }
    }

    /// Commits the pending layer configuration to the panel.
    pub fn reload(&mut self)
        requires
            old(self).wf(),
        ensures
            final(self).wf(),
            final(self)@ == old(self)@.reload(),
    {
        self.layer1.reload();
        self.layer2.reload();
        proof {
            self.layer1.lemma_model_wf(self.config);
            self.layer2.lemma_model_wf(self.config);
        }
    }
}

/// A second reload right after a reload changes nothing: neither the state
/// of a layer nor the frame that the panel shows.
pub proof fn lemma_reload_idempotent(controller: ControllerView)
    ensures
        controller.reload().reload() == controller.reload(),
        forall|layer: Layer|
            controller.reload().reload().presented(layer) == controller.reload().presented(layer),
{
}

/// A reload touches no buffer, and it shows exactly the layers that were
/// marked active or were shown already.
pub proof fn lemma_reload_presents(controller: ControllerView, layer: Layer)
    requires
        controller.wf(),
    ensures
        controller.reload().wf(),
        controller.reload().frame(layer) == controller.frame(layer),
        controller.reload().presented(layer) == if controller.layer(layer).state is Enabled
            || controller.layer(layer).state is Presenting {
            Some(controller.frame(layer))
        } else {
            None
        },
{
}

/// A layer is bound once: after a buffer has been bound to it, every further
/// request to bind one is answered with `AlreadyBound`, whatever was enabled,
/// reloaded or written in between.
pub proof fn lemma_bind_once(
    controller: ControllerView,
    layer: Layer,
    pixel_format: PixelFormat,
    frame: Seq<u16>,
    width: u16,
    height: u16,
)
    ensures
        controller.bind(layer, pixel_format, frame).bind_result(layer, width, height) == Err::<
            (),
            BindError,
        >(BindError::AlreadyBound),
        controller.bound(layer) ==> {
            &&& controller.bind_result(layer, width, height) == Err::<(), BindError>(
                BindError::AlreadyBound,
            )
            &&& forall|other: Layer| #[trigger] controller.enable(other).bound(layer)
            &&& controller.reload().bound(layer)
            &&& forall|other: Layer, x: int, y: int, raw: u16| #[trigger]
                controller.write(other, x, y, raw).bound(layer)
        },
{
}

/// The state of a layer only moves forward: no operation of the handle takes
/// a layer back to a state that it has left.
pub proof fn lemma_state_moves_forward(
    controller: ControllerView,
    layer: Layer,
    target: Layer,
    pixel_format: PixelFormat,
    frame: Seq<u16>,
    x: int,
    y: int,
    raw: u16,
)
    ensures
        !controller.bound(target) ==> controller.layer(layer).state.rank() <= controller.bind(
            target,
            pixel_format,
            frame,
        ).layer(layer).state.rank(),
        controller.layer(layer).state.rank() <= controller.enable(target).layer(layer).state.rank(),
        controller.layer(layer).state.rank() <= controller.reload().layer(layer).state.rank(),
        controller.layer(layer).state == controller.write(target, x, y, raw).layer(layer).state,
{
}

/// A word that has been written is the word that is read from that cell;
/// every other cell of the layer, and the other layer, keep what they held.
pub proof fn lemma_write_then_read(
    controller: ControllerView,
    layer: Layer,
    x: int,
    y: int,
    raw: u16,
    u: int,
    v: int,
)
    requires
        controller.wf(),
        controller.bound(layer),
        controller.config.contains(x, y),
        controller.config.contains(u, v),
    ensures
        controller.write(layer, x, y, raw).wf(),
        controller.write(layer, x, y, raw).cell(layer, x, y) == raw,
        (u != x || v != y) ==> controller.write(layer, x, y, raw).cell(layer, u, v)
            == controller.cell(layer, u, v),
        forall|other: Layer|
            other != layer ==> #[trigger] controller.write(layer, x, y, raw).layer(other)
                == controller.layer(other),
{
    let width = controller.config.active_width as int;
    let height = controller.config.active_height as int;
    lemma_cell_index(width, height, x, y, u, v);
    lemma_cell_index(width, height, u, v, x, y);
}

} // verus!
