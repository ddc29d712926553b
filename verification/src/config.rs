//! Panel geometry and sync timing.

use vstd::prelude::*;

verus! {

/// Active width of the panel, in pixels.
pub const WIDTH: u16 = 480;

/// Active height of the panel, in pixels.
pub const HEIGHT: u16 = 272;

/// Resolution and sync timing of one panel. A value is plain data and is
/// never changed once a controller has been built from it.
#[derive(Clone, Copy, Debug, PartialEq, Eq)]
pub struct DisplayConfig {
    pub active_width: u16,
    pub active_height: u16,
    pub h_back_porch: u16,
    pub h_front_porch: u16,
    pub v_back_porch: u16,
    pub v_front_porch: u16,
    pub h_sync: u16,
    pub v_sync: u16,
    pub frame_rate: u16,
    /// `false`: active low, `true`: active high
    pub h_sync_pol: bool,
    /// `false`: active low, `true`: active high
    pub v_sync_pol: bool,
    /// `false`: active low, `true`: active high
    pub no_data_enable_pol: bool,
    /// `false`: active low, `true`: active high
    pub pixel_clock_pol: bool,
}

/// Timing of the 480x272 panel of the STM32F7 discovery board, as contracts
/// name it.
pub open spec fn disco_screen_config_spec() -> DisplayConfig {
    DisplayConfig {
        active_width: WIDTH,
        active_height: HEIGHT,
        h_back_porch: 13,
        h_front_porch: 30,
        h_sync: 41,
        v_back_porch: 2,
        v_front_porch: 2,
        v_sync: 10,
        frame_rate: 60,
        h_sync_pol: false,
        v_sync_pol: false,
        no_data_enable_pol: false,
        pixel_clock_pol: false,
    }
}

/// Timing of the 480x272 panel of the STM32F7 discovery board.
#[verifier::when_used_as_spec(disco_screen_config_spec)]
pub fn disco_screen_config() -> (config: DisplayConfig)
    ensures
        config == disco_screen_config_spec(),
        config.valid(),
{
    DisplayConfig {
        active_width: WIDTH,
        active_height: HEIGHT,
        h_back_porch: 13,
        h_front_porch: 30,
        h_sync: 41,
        v_back_porch: 2,
        v_front_porch: 2,
        v_sync: 10,
        frame_rate: 60,
        h_sync_pol: false,
        v_sync_pol: false,
        no_data_enable_pol: false,
        pixel_clock_pol: false,
    }
}

impl DisplayConfig {
    /// Every geometry field (active area, porches, sync widths) is strictly
    /// positive.
    pub open spec fn valid(self) -> bool {
        &&& self.active_width > 0
        &&& self.active_height > 0
        &&& self.h_back_porch > 0
        &&& self.h_front_porch > 0
        &&& self.v_back_porch > 0
        &&& self.v_front_porch > 0
        &&& self.h_sync > 0
        &&& self.v_sync > 0
    }

    /// Number of pixels in the active area.
    pub open spec fn pixel_count(self) -> nat {
        (self.active_width as nat) * (self.active_height as nat)
    }

    /// Whether `(x, y)` lies in the active area.
    pub open spec fn contains(self, x: int, y: int) -> bool {
        0 <= x < self.active_width && 0 <= y < self.active_height
    }

    /// Tests [`DisplayConfig::valid`].
    pub fn is_valid(&self) -> (ok: bool)
        ensures
            ok == self.valid(),
    {
        self.active_width > 0 && self.active_height > 0 && self.h_back_porch > 0
            && self.h_front_porch > 0 && self.v_back_porch > 0 && self.v_front_porch > 0
            && self.h_sync > 0 && self.v_sync > 0
    }
}

} // verus!
