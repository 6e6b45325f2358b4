//! Colors for the sixteen-color VGA modes, text-mode attribute bytes, and
//! the default 256-entry palette handed to the DAC after a mode switch.

use vstd::prelude::*;

verus! {

/// Number of bytes in a full DAC palette: 256 colors, 3 six-bit channels each.
pub const PALETTE_SIZE: usize = 768;

/// The sixteen standard VGA palette indices.
#[derive(Debug, Copy, Clone, PartialEq, Eq, Structural)]
pub enum Color16 {
    /// Black (index 0).
    Black,
    /// Blue (index 1).
    Blue,
    /// Green (index 2).
    Green,
    /// Cyan (index 3).
    Cyan,
    /// Red (index 4).
    Red,
    /// Magenta (index 5).
    Magenta,
    /// Brown (index 6).
    Brown,
    /// Light grey (index 7).
    LightGrey,
    /// Dark grey (index 8).
    DarkGrey,
    /// Light blue (index 9).
    LightBlue,
    /// Light green (index 10).
    LightGreen,
    /// Light cyan (index 11).
    LightCyan,
    /// Light red (index 12).
    LightRed,
    /// Pink (index 13).
    Pink,
    /// Yellow (index 14).
    Yellow,
    /// White (index 15).
    White,
}

/// The palette index a `Color16` stands for, as a mathematical value.
pub open spec fn color16_index(c: Color16) -> u8 {
    match c {
        Color16::Black => 0,
        Color16::Blue => 1,
        Color16::Green => 2,
        Color16::Cyan => 3,
        Color16::Red => 4,
        Color16::Magenta => 5,
        Color16::Brown => 6,
        Color16::LightGrey => 7,
        Color16::DarkGrey => 8,
        Color16::LightBlue => 9,
        Color16::LightGreen => 10,
        Color16::LightCyan => 11,
        Color16::LightRed => 12,
        Color16::Pink => 13,
        Color16::Yellow => 14,
        Color16::White => 15,
    }
}

impl Color16 {
    /// The 4-bit palette index of this color.
    pub fn to_u8(self) -> (r: u8)
        ensures
            r == color16_index(self),
            r < 16,
    {
        match self {
            Color16::Black => 0,
            Color16::Blue => 1,
            Color16::Green => 2,
            Color16::Cyan => 3,
            Color16::Red => 4,
            Color16::Magenta => 5,
            Color16::Brown => 6,
            Color16::LightGrey => 7,
            Color16::DarkGrey => 8,
            Color16::LightBlue => 9,
            Color16::LightGreen => 10,
            Color16::LightCyan => 11,
            Color16::LightRed => 12,
            Color16::Pink => 13,
            Color16::Yellow => 14,
            Color16::White => 15,
        }
    }
}

/// A text-mode attribute byte: foreground color in the low nibble,
/// background color in the high nibble.
#[derive(Debug, Copy, Clone, PartialEq, Eq, Structural)]
pub struct TextModeColor {
    /// The packed attribute byte.
    pub packed: u8,
}

/// The background bits of an attribute byte: the color index shifted to
/// the high nibble.
pub open spec fn background_bits(background: Color16) -> u8 {
    (color16_index(background) * 16) as u8
}

/// The attribute byte that a foreground/background pair packs to.
pub open spec fn pack_color(foreground: Color16, background: Color16) -> u8 {
    color16_index(foreground) | background_bits(background)
}

impl TextModeColor {
    /// Packs a foreground and background color into an attribute byte.
    pub fn new(foreground: Color16, background: Color16) -> (r: TextModeColor)
        ensures
            r.packed == pack_color(foreground, background),
    {
        let fg = foreground.to_u8();
        let bg = background.to_u8();
        TextModeColor { packed: fg | (bg * 16) }
    }

    /// Replaces the foreground color, keeping the background.
    pub fn set_foreground(&mut self, foreground: Color16)
        ensures
            final(self).packed == (old(self).packed & 0xF0) | color16_index(foreground),
    {
        self.packed = (self.packed & 0xF0) | foreground.to_u8();
    }

    /// Replaces the background color, keeping the foreground.
    pub fn set_background(&mut self, background: Color16)
        ensures
            final(self).packed == (old(self).packed & 0x0F) | background_bits(background),
    {
        self.packed = (self.packed & 0x0F) | (background.to_u8() * 16);
    }
}

/// One channel of the classic 6-bit RGB values of the sixteen EGA colors.
/// `channel` 0 is red, 1 green, 2 blue.
pub open spec fn color16_channel(index: int, channel: int) -> u8 {
    let bright = index >= 8;
    let base: u8 = if bright { 21 } else { 0 };
    let on: u8 = if bright { 63 } else { 42 };
    if index == 6 && channel == 1 {
        21  // brown: halved green
    } else if index == 8 {
        21  // dark grey
    } else {
        let bit = if channel == 0 {
            index == 4 || index == 5 || index == 6 || index == 7 || index == 12 || index == 13
                || index == 14 || index == 15
        } else if channel == 1 {
            index == 2 || index == 3 || index == 6 || index == 7 || index == 10 || index == 11
                || index == 14 || index == 15
        } else {
            index == 1 || index == 3 || index == 5 || index == 7 || index == 9 || index == 11
                || index == 13 || index == 15
        };
        if bit {
            on
        } else {
            base
        }
    }
}

/// The byte at position `i` of the default palette: the sixteen EGA colors,
/// a sixteen-step grey ramp, and black for every remaining entry.
pub open spec fn default_palette_byte(i: int) -> u8 {
    let color = i / 3;
    let channel = i % 3;
    if color < 16 {
        color16_channel(color, channel)
    } else if color < 32 {
        ((color - 16) * 63 / 15) as u8
    } else {
        0
    }
}

/// Exec counterpart of `color16_channel`.
fn color16_channel_exec(index: usize, channel: usize) -> (r: u8)
    requires
        index < 16,
        channel < 3,
    ensures
        r == color16_channel(index as int, channel as int),
{
    let bright = index >= 8;
    let base: u8 = if bright { 21 } else { 0 };
    let on: u8 = if bright { 63 } else { 42 };
    if index == 6 && channel == 1 {
        21
    } else if index == 8 {
        21
    } else {
        let bit = if channel == 0 {
            index == 4 || index == 5 || index == 6 || index == 7 || index == 12 || index == 13
                || index == 14 || index == 15
        } else if channel == 1 {
            index == 2 || index == 3 || index == 6 || index == 7 || index == 10 || index == 11
                || index == 14 || index == 15
        } else {
            index == 1 || index == 3 || index == 5 || index == 7 || index == 9 || index == 11
                || index == 13 || index == 15
        };
        if bit {
            on
        } else {
            base
        }
    }
}

/// Builds the default palette: 768 bytes as `default_palette_byte` describes.
pub fn default_palette() -> (p: Vec<u8>)
    ensures
        p@.len() == PALETTE_SIZE,
        forall|i: int| 0 <= i < PALETTE_SIZE ==> p@[i] == default_palette_byte(i),
{
    let mut p: Vec<u8> = Vec::new();
    let mut i: usize = 0;
    while i < PALETTE_SIZE
        invariant
            i <= PALETTE_SIZE,
            p@.len() == i,
            forall|k: int| 0 <= k < i ==> p@[k] == default_palette_byte(k),
        decreases PALETTE_SIZE - i,
    {
        let color = i / 3;
        let channel = i % 3;
        let byte: u8 = if color < 16 {
            color16_channel_exec(color, channel)
        } else if color < 32 {
            (((color - 16) * 63) / 15) as u8
        } else {
            0
        };
        p.push(byte);
        i = i + 1;
    }
    p
}

} // verus!
