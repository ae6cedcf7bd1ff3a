//! Common color structures used in vga programming: the sixteen named
//! colors of the 16-color modes, the packed text-mode attribute byte, and
//! the default 256-entry DAC palette.

use vstd::prelude::*;
use vstd::arithmetic::div_mod::lemma_fundamental_div_mod_converse;

verus! {

/// Represents the size of the vga palette in bytes: 256 entries of three
/// channel bytes (red, green, blue) each.
pub const PALETTE_SIZE: usize = 768;

/// Represents a 16 bit color used for vga display.
///
/// Each variant carries a fixed 4-bit numeric code, given by
/// [`Color16Bit::spec_code`]. The code space is dense and total: every value
/// in `0..16` is the code of exactly one variant.
#[derive(Debug, Clone, Copy)]
pub enum Color16Bit {
    /// Represents the color `Black (0x0)`.
    Black,
    /// Represents the color `Blue (0x1)`.
    Blue,
    /// Represents the color `Green (0x2)`.
    Green,
    /// Represents the color `Cyan (0x3)`.
    Cyan,
    /// Represents the color `Red (0x4)`.
    Red,
    /// Represents the color `Magenta (0x5)`.
    Magenta,
    /// Represents the color `Brown (0x6)`.
    Brown,
    /// Represents the color `LightGrey (0x7)`.
    LightGrey,
    /// Represents the color `DarkGrey (0x8)`.
    DarkGrey,
    /// Represents the color `LightBlue (0x9)`.
    LightBlue,
    /// Represents the color `LightGreen (0xA)`.
    LightGreen,
    /// Represents the color `LightCyan (0xB)`.
    LightCyan,
    /// Represents the color `LightRed (0xC)`.
    LightRed,
    /// Represents the color `Pink (0xD)`.
    Pink,
    /// Represents the color `Yellow (0xE)`.
    Yellow,
    /// Represents the color `White (0xF)`.
    White,
}

impl Color16Bit {
    /// The fixed 4-bit code of this color.
    pub open spec fn spec_code(self) -> u8 {
        match self {
            Color16Bit::Black => 0x0,
            Color16Bit::Blue => 0x1,
            Color16Bit::Green => 0x2,
            Color16Bit::Cyan => 0x3,
            Color16Bit::Red => 0x4,
            Color16Bit::Magenta => 0x5,
            Color16Bit::Brown => 0x6,
            Color16Bit::LightGrey => 0x7,
            Color16Bit::DarkGrey => 0x8,
            Color16Bit::LightBlue => 0x9,
            Color16Bit::LightGreen => 0xA,
            Color16Bit::LightCyan => 0xB,
            Color16Bit::LightRed => 0xC,
            Color16Bit::Pink => 0xD,
            Color16Bit::Yellow => 0xE,
            Color16Bit::White => 0xF,
        }
    }

    /// Returns the 4-bit code of this color.
    pub fn code(self) -> (code: u8)
        ensures
            code == self.spec_code(),
            code < 16,
    {
        match self {
            Color16Bit::Black => 0x0,
            Color16Bit::Blue => 0x1,
            Color16Bit::Green => 0x2,
            Color16Bit::Cyan => 0x3,
            Color16Bit::Red => 0x4,
            Color16Bit::Magenta => 0x5,
            Color16Bit::Brown => 0x6,
            Color16Bit::LightGrey => 0x7,
            Color16Bit::DarkGrey => 0x8,
            Color16Bit::LightBlue => 0x9,
            Color16Bit::LightGreen => 0xA,
            Color16Bit::LightCyan => 0xB,
            Color16Bit::LightRed => 0xC,
            Color16Bit::Pink => 0xD,
            Color16Bit::Yellow => 0xE,
            Color16Bit::White => 0xF,
        }
    }

    /// Returns the color whose code is `code`: the inverse of
    /// [`Color16Bit::code`], total on the 4-bit code space.
    pub fn from_code(code: u8) -> (color: Color16Bit)
        requires
            code < 16,
        ensures
            color.spec_code() == code,
    {
        if code == 0x0 {
            Color16Bit::Black
        } else if code == 0x1 {
            Color16Bit::Blue
        } else if code == 0x2 {
            Color16Bit::Green
        } else if code == 0x3 {
            Color16Bit::Cyan
        } else if code == 0x4 {
            Color16Bit::Red
        } else if code == 0x5 {
            Color16Bit::Magenta
        } else if code == 0x6 {
            Color16Bit::Brown
        } else if code == 0x7 {
            Color16Bit::LightGrey
        } else if code == 0x8 {
            Color16Bit::DarkGrey
        } else if code == 0x9 {
            Color16Bit::LightBlue
        } else if code == 0xA {
            Color16Bit::LightGreen
        } else if code == 0xB {
            Color16Bit::LightCyan
        } else if code == 0xC {
            Color16Bit::LightRed
        } else if code == 0xD {
            Color16Bit::Pink
        } else if code == 0xE {
            Color16Bit::Yellow
        } else {
            Color16Bit::White
        }
    }
}

/// Distinct colors have distinct codes: together with
/// [`Color16Bit::from_code`], the 4-bit code space maps one-to-one onto the
/// sixteen variants.
pub proof fn lemma_color_code_injective(a: Color16Bit, b: Color16Bit)
    requires
        a.spec_code() == b.spec_code(),
    ensures
        a == b,
{
}

/// Represents a color for vga text modes: the background code in the high
/// nibble and the foreground code in the low nibble, so that the packed byte
/// is always `(background_code << 4) | foreground_code`.
#[derive(Debug, Copy, Clone)]
pub struct TextModeColor(pub u8);

impl TextModeColor {
    /// Returns a new `TextModeColor` given the specified `foreground`
    /// and `background` color.
    pub fn new(foreground: Color16Bit, background: Color16Bit) -> (color: TextModeColor)
        ensures
            color.0 == ((background.spec_code() << 4) | foreground.spec_code()),
            color.0 & 0x0F == foreground.spec_code(),
            color.0 >> 4 == background.spec_code(),
    {
        let f: u8 = foreground.code();
        let b: u8 = background.code();
        proof {
            assert(((b << 4) | f) & 0x0F == f && ((b << 4) | f) >> 4 == b) by (bit_vector)
                requires
                    f < 16,
                    b < 16,
            ;
        }
        TextModeColor((b << 4) | f)
    }

    /// Sets the background color given the specified `background`, leaving
    /// the foreground nibble bit-for-bit unchanged.
    pub fn set_background(&mut self, background: Color16Bit)
        ensures
            final(self).0 >> 4 == background.spec_code(),
            final(self).0 & 0x0F == old(self).0 & 0x0F,
            final(self).0 == ((background.spec_code() << 4) | (old(self).0 & 0x0F)),
    {
        let b: u8 = background.code();
        let v: u8 = self.0;
        proof {
            assert(((b << 4) | (v & 0x0F)) >> 4 == b && ((b << 4) | (v & 0x0F)) & 0x0F == v & 0x0F)
                by (bit_vector)
                requires
                    b < 16,
            ;
        }
        self.0 = (b << 4) | (v & 0x0F);
    }

    /// Sets the foreground color given the specified `foreground`, leaving
    /// the background nibble bit-for-bit unchanged.
    pub fn set_foreground(&mut self, foreground: Color16Bit)
        ensures
            final(self).0 & 0x0F == foreground.spec_code(),
            final(self).0 >> 4 == old(self).0 >> 4,
            final(self).0 & 0xF0 == old(self).0 & 0xF0,
    {
        let f: u8 = foreground.code();
        let v: u8 = self.0;
        proof {
            assert(((v & 0xF0) | f) & 0x0F == f && ((v & 0xF0) | f) >> 4 == v >> 4
                && ((v & 0xF0) | f) & 0xF0 == v & 0xF0) by (bit_vector)
                requires
                    f < 16,
            ;
        }
        self.0 = (v & 0xF0) | f;
    }
}

/// The byte at offset `j` of the default vga 256-color palette.
///
/// The first 64 entries form the classic 6-bit RGB ramp: for entry `e`, bits
/// 0..3 of `e` add `0x2A` to the blue, green and red channels respectively,
/// and bits 3..6 add `0x15` to the same channels. Entries 64..256 are all
/// white (`0x3F` in every channel).
pub open spec fn palette_byte(j: int) -> u8 {
    let entry = j / 3;
    let channel = j % 3;
    if entry >= 64 {
        0x3F
    } else {
        let strong = (entry as u8) & (1u8 << ((2 - channel) as u8)) != 0;
        let weak = (entry as u8) & (1u8 << ((5 - channel) as u8)) != 0;
        if strong && weak {
            0x3F
        } else if strong {
            0x2A
        } else if weak {
            0x15
        } else {
            0x00
        }
    }
}

/// Every channel byte of the default palette fits the 6-bit DAC range.
pub proof fn lemma_palette_byte_bounded(j: int)
    requires
        0 <= j < 768,
    ensures
        palette_byte(j) <= 63,
{
}

/// One channel byte of one entry of the default palette.
fn palette_channel(entry: usize, channel: usize) -> (byte: u8)
    requires
        entry < 256,
        channel < 3,
    ensures
        byte == palette_byte(3 * entry + channel),
        byte <= 63,
{
    proof {
        lemma_fundamental_div_mod_converse(
            3 * (entry as int) + (channel as int),
            3,
            entry as int,
            channel as int,
        );
    }
    if entry >= 64 {
        0x3F
    } else {
        let e: u8 = entry as u8;
        let strong_shift: u8 = (2 - channel) as u8;
        let weak_shift: u8 = (5 - channel) as u8;
        let strong: bool = e & (1u8 << strong_shift) != 0;
        let weak: bool = e & (1u8 << weak_shift) != 0;
        if strong && weak {
            0x3F
        } else if strong {
            0x2A
        } else if weak {
            0x15
        } else {
            0x00
        }
    }
}

/// Builds the default vga 256 color palette: 768 channel bytes, every one of
/// them within the 6-bit DAC range.
pub fn default_palette() -> (palette: Vec<u8>)
    ensures
        palette@.len() == PALETTE_SIZE,
        forall|j: int| 0 <= j < palette@.len() ==> palette@[j] == palette_byte(j),
        forall|j: int| 0 <= j < palette@.len() ==> palette@[j] <= 63,
{
    let mut palette: Vec<u8> = Vec::new();
    let mut entry: usize = 0;
    while entry < 256
        invariant
            entry <= 256,
            palette@.len() == 3 * entry,
            forall|j: int| 0 <= j < palette@.len() ==> palette@[j] == palette_byte(j),
            forall|j: int| 0 <= j < palette@.len() ==> palette@[j] <= 63,
        decreases 256 - entry,
    {
        let mut channel: usize = 0;
        while channel < 3
            invariant
                entry < 256,
                channel <= 3,
                palette@.len() == 3 * entry + channel,
                forall|j: int| 0 <= j < palette@.len() ==> palette@[j] == palette_byte(j),
                forall|j: int| 0 <= j < palette@.len() ==> palette@[j] <= 63,
            decreases 3 - channel,
        {
            let byte: u8 = palette_channel(entry, channel);
            palette.push(byte);
            channel = channel + 1;
        }
        entry = entry + 1;
    }
    palette
}

} // verus!
