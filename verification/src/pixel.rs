//! The logical pixel model and its wire encoding.
//!
//! A [`Pixel`] is what callers set into the frame buffer: three 8-bit
//! colour channels plus a 5-bit brightness level. A [`BusPixel`] is the
//! transient, protocol-facing form derived from it at transmission time:
//! the colour channels unchanged, and a brightness byte whose top three
//! bits carry the protocol's fixed `111` framing marker and whose low
//! five bits carry the brightness level.

use vstd::prelude::*;

verus! {

/// The brightness byte's fixed framing marker: the top three bits are `111`.
pub const BRIGHTNESS_MARKER: u8 = 0xE0;

/// Mask selecting the five brightness bits of the wire brightness byte.
pub const BRIGHTNESS_MASK: u8 = 0x1F;

/// One logical LED: colour channels at full range, plus a brightness
/// level. Levels `0` (off) through `31` (full) are meaningful; a larger
/// value is accepted and its low five bits are used at encoding time.
#[derive(Clone, Copy, PartialEq, Eq, Structural, Debug)]
pub struct Pixel {
    pub red: u8,
    pub green: u8,
    pub blue: u8,
    pub brightness: u8,
}

/// The pixel with all channels and brightness zero.
pub open spec fn off_pixel() -> Pixel {
    Pixel { red: 0, green: 0, blue: 0, brightness: 0 }
}

impl Pixel {
    /// Pure value construction; no validation beyond the types.
    pub fn new(red: u8, green: u8, blue: u8, brightness: u8) -> (p: Pixel)
        ensures
            p == (Pixel { red, green, blue, brightness }),
    {
        Pixel { red, green, blue, brightness }
    }

    /// The all-off pixel: every channel zero, brightness zero.
    pub fn new_off() -> (p: Pixel)
        ensures
            p == off_pixel(),
    {
        Pixel { red: 0, green: 0, blue: 0, brightness: 0 }
    }
}

/// One wire word: the 4 bytes that represent a pixel on the bus. Derived
/// fresh from a [`Pixel`] at transmission time, never stored.
#[derive(Clone, Copy, PartialEq, Eq, Structural, Debug)]
pub struct BusPixel {
    pub red: u8,
    pub green: u8,
    pub blue: u8,
    pub brightness: u8,
}

/// The wire encoding of a pixel: colour channels unchanged, and the
/// brightness byte `111bbbbb` with `bbbbb` the low five bits of the
/// brightness level.
pub open spec fn spec_encode(p: Pixel) -> BusPixel {
    BusPixel {
        red: p.red,
        green: p.green,
        blue: p.blue,
        brightness: BRIGHTNESS_MARKER | (p.brightness & BRIGHTNESS_MASK),
    }
}

impl BusPixel {
    /// Encode one pixel into its wire word.
    pub fn from_pixel(pixel: &Pixel) -> (w: BusPixel)
        ensures
            w == spec_encode(*pixel),
    {
        let brightness = BRIGHTNESS_MARKER | (pixel.brightness & BRIGHTNESS_MASK);
        BusPixel { red: pixel.red, green: pixel.green, blue: pixel.blue, brightness }
    }
}

/// A pixel at brightness level zero encodes to the bare framing marker
/// `0b1110_0000` (224) in the wire brightness byte.
pub proof fn lemma_encode_brightness_zero(p: Pixel)
    requires
        p.brightness == 0,
    ensures
        spec_encode(p).brightness == 0xE0,
{
    assert(0xE0u8 | (0u8 & 0x1Fu8) == 0xE0u8) by (bit_vector);
}

/// A pixel at full brightness level (31) encodes to `0b1111_1111` (255)
/// in the wire brightness byte.
pub proof fn lemma_encode_brightness_full(p: Pixel)
    requires
        p.brightness == 31,
    ensures
        spec_encode(p).brightness == 0xFF,
{
    assert(0xE0u8 | (31u8 & 0x1Fu8) == 0xFFu8) by (bit_vector);
}

/// The colour channels pass through the encoding unchanged, whatever the
/// brightness level.
pub proof fn lemma_encode_channels_identity(p: Pixel)
    ensures
        spec_encode(p).red == p.red,
        spec_encode(p).green == p.green,
        spec_encode(p).blue == p.blue,
{
}

/// The all-off pixel encodes to the framing marker alone, with every
/// colour channel zero.
pub proof fn lemma_encode_off()
    ensures
        spec_encode(off_pixel()) == (BusPixel { red: 0, green: 0, blue: 0, brightness: 0xE0 }),
{
    lemma_encode_brightness_zero(off_pixel());
}

} // verus!
