//! The 16-bit RGB colour model of the panel: five bits of red, six of green,
//! five of blue.

use vstd::prelude::*;

verus! {

/// Largest red value.
pub const MAX_R: u8 = 31;

/// Largest green value.
pub const MAX_G: u8 = 63;

/// Largest blue value.
pub const MAX_B: u8 = 31;

/// A colour by its three channels.
#[derive(Clone, Copy, Debug, PartialEq, Eq)]
pub struct Rgb565 {
    pub r: u8,
    pub g: u8,
    pub b: u8,
}

/// The 16-bit word that holds `r`, `g` and `b`: red in bits 11 to 15, green in
/// bits 5 to 10, blue in bits 0 to 4. Bits of a channel above its width are
/// dropped.
pub open spec fn pack565(r: u8, g: u8, b: u8) -> u16 {
    (((r & MAX_R) as u16) << 11) | (((g & MAX_G) as u16) << 5) | ((b & MAX_B) as u16)
}

/// The colour whose channels are the three bit fields of `raw`.
pub open spec fn unpack565(raw: u16) -> Rgb565 {
    Rgb565 {
        r: ((raw >> 11) & 0x1f) as u8,
        g: ((raw >> 5) & 0x3f) as u8,
        b: (raw & 0x1f) as u8,
    }
}

impl Rgb565 {
    /// Each channel fits its width.
    pub open spec fn representable(self) -> bool {
        self.r <= MAX_R && self.g <= MAX_G && self.b <= MAX_B
    }

    /// The packed word of this colour.
    pub open spec fn packed(self) -> u16 {
        pack565(self.r, self.g, self.b)
    }

    /// A colour from three channel values; bits above a channel's width are
    /// set to zero.
    pub fn new(r: u8, g: u8, b: u8) -> (color: Rgb565)
        ensures
            color.r == r & MAX_R,
            color.g == g & MAX_G,
            color.b == b & MAX_B,
            color.representable(),
            color.packed() == pack565(r, g, b),
    {
        assert((r & 31) <= 31 && (r & 31) & 31 == r & 31) by (bit_vector);
        assert((g & 63) <= 63 && (g & 63) & 63 == g & 63) by (bit_vector);
        assert((b & 31) <= 31 && (b & 31) & 31 == b & 31) by (bit_vector);
        Rgb565 { r: r & MAX_R, g: g & MAX_G, b: b & MAX_B }
    }

    /// The packed 16-bit word that stands for this colour in a framebuffer.
    pub fn into_storage(self) -> (raw: u16)
        ensures
            raw == self.packed(),
    {
        raw_rgb565(self.r, self.g, self.b)
    }
}

/// Calls `embedded_graphics`: `Rgb565::new`, then the conversion of that
/// colour into `RawU16` and `RawData::into_inner`. Not proved here: that the
/// crate masks each channel to its width and stores red, green and blue at
/// bits 11, 5 and 0 of the word it hands back.
#[verifier::external_body]
fn raw_rgb565(r: u8, g: u8, b: u8) -> (raw: u16)
    ensures
        raw == pack565(r, g, b),
{
    let color = embedded_graphics::pixelcolor::Rgb565::new(r, g, b);
    embedded_graphics::pixelcolor::raw::RawData::into_inner(
        embedded_graphics::pixelcolor::raw::RawU16::from(color),
    )
}

/// Packing loses nothing of a representable colour: its channels are read
/// back from the packed word.
pub proof fn lemma_pack_round_trip(color: Rgb565)
    requires
        color.representable(),
    ensures
        unpack565(color.packed()) == color,
{
    let r = color.r;
    let g = color.g;
    let b = color.b;
    assert(r <= 31 && g <= 63 && b <= 31 ==> {
        let raw = (((r & 31) as u16) << 11) | (((g & 63) as u16) << 5) | ((b & 31) as u16);
        &&& ((raw >> 11) & 0x1f) as u8 == r
        &&& ((raw >> 5) & 0x3f) as u8 == g
        &&& (raw & 0x1f) as u8 == b
    }) by (bit_vector);
}

} // verus!
