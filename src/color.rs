use vstd::prelude::*;

verus! {

/// An sRGB colour with 8-bit channels.
#[derive(Clone, Copy, Debug, PartialEq, Eq, Structural)]
pub struct Color {
    pub red: u8,
    pub green: u8,
    pub blue: u8,
}

/// A brightness or tone adjustment of a colour, with its amounts in
/// thousandths: `Darken(950)` darkens by a factor of 0.95.
///
/// The arithmetic itself is colour-space work done by the caller; the library
/// only records which adjustment each derived colour asks for.
#[derive(Clone, Copy, Debug, PartialEq, Eq, Structural)]
pub enum Shade {
    /// Move towards white in linear light.
    Lighten(u16),
    /// Move towards black in linear light.
    Darken(u16),
    /// Keep the hue and set saturation and value (HSV).
    Tone { saturation: u16, value: u16 },
}

impl Color {
    /// The colour whose channels are the low three bytes of `0xRRGGBB`.
    pub open spec fn from_hex_spec(hex: u32) -> Color {
        Color {
            red: ((hex / 0x10000) % 0x100) as u8,
            green: ((hex / 0x100) % 0x100) as u8,
            blue: (hex % 0x100) as u8,
        }
    }

    pub fn new(red: u8, green: u8, blue: u8) -> (r: Color)
        ensures
            r.red == red,
            r.green == green,
            r.blue == blue,
    {
        Color { red, green, blue }
    }

    /// Reads `0xRRGGBB` as a colour; any bits above the low 24 are ignored.
    pub fn from_hex(hex: u32) -> (r: Color)
        ensures
            r == Color::from_hex_spec(hex),
    {
        Color {
            red: ((hex / 0x10000) % 0x100) as u8,
            green: ((hex / 0x100) % 0x100) as u8,
            blue: (hex % 0x100) as u8,
        }
    }
}

} // verus!
