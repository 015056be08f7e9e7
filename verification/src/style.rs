//! Style model: a font token, an RGBA color, and [`TextStyle`].
//!
//! Fractional quantities (font size, color channels) are carried as the
//! IEEE 754 single-precision bit patterns of the intended values, stored in
//! `u32` fields. The model never does arithmetic on them: it only stores,
//! copies and compares, and bit equality is exactly the structural equality
//! the style contract asks for. Callers that work in fractional units
//! convert at the boundary (`f32::to_bits` / `f32::from_bits`).

use vstd::prelude::*;

verus! {

/// Bit pattern of 1.0 in IEEE 754 single precision: the default color
/// channel value (opaque white has every channel at 1.0).
pub const CHANNEL_FULL_BITS: u32 = 0x3F80_0000;

/// Bit pattern of 12.0 in IEEE 754 single precision: the default font size.
pub const DEFAULT_FONT_SIZE_BITS: u32 = 0x4140_0000;

/// An opaque, cheaply copyable token naming a font resource in an external
/// font table. The model never dereferences it; it only stores, copies and
/// compares it. The zero token is the "no font loaded" sentinel that a
/// default style carries.
#[derive(Clone, Copy, Debug, Hash, PartialEq, Eq, Structural)]
pub struct FontHandle {
    pub id: u64,
}

impl FontHandle {
    /// The "no font loaded" sentinel token.
    pub open spec fn spec_default() -> FontHandle {
        FontHandle { id: 0 }
    }
}

impl Default for FontHandle {
    /// Returns the "no font loaded" sentinel token.
    fn default() -> (r: FontHandle)
        ensures
            r == FontHandle::spec_default(),
    {
        FontHandle { id: 0 }
    }
}

/// An RGBA color; each channel holds the bit pattern of the channel's
/// single-precision value.
#[derive(Clone, Copy, Debug, PartialEq, Eq, Structural)]
pub struct Color {
    pub red_bits: u32,
    pub green_bits: u32,
    pub blue_bits: u32,
    pub alpha_bits: u32,
}

impl Color {
    /// Opaque white: every channel at 1.0.
    pub open spec fn spec_opaque_white() -> Color {
        Color {
            red_bits: CHANNEL_FULL_BITS,
            green_bits: CHANNEL_FULL_BITS,
            blue_bits: CHANNEL_FULL_BITS,
            alpha_bits: CHANNEL_FULL_BITS,
        }
    }

    /// Builds a color from the four channel bit patterns, in RGBA order.
    pub fn rgba_bits(red_bits: u32, green_bits: u32, blue_bits: u32, alpha_bits: u32) -> (c: Color)
        ensures
            c == (Color { red_bits, green_bits, blue_bits, alpha_bits }),
    {
        Color { red_bits, green_bits, blue_bits, alpha_bits }
    }

    /// Opaque white, the default style color.
    pub fn opaque_white() -> (c: Color)
        ensures
            c == Color::spec_opaque_white(),
    {
        Color {
            red_bits: CHANNEL_FULL_BITS,
            green_bits: CHANNEL_FULL_BITS,
            blue_bits: CHANNEL_FULL_BITS,
            alpha_bits: CHANNEL_FULL_BITS,
        }
    }
}

impl Default for Color {
    /// A default color is opaque white.
    fn default() -> (r: Color)
        ensures
            r == Color::spec_opaque_white(),
    {
        Color::opaque_white()
    }
}

/// How a run of text is drawn: which font, at what size, in which color.
/// Plain data: copying a style copies every field, so two sections that
/// start from one style can afterwards be restyled independently.
#[derive(Clone, Copy, Debug, PartialEq, Eq, Structural)]
pub struct TextStyle {
    pub font: FontHandle,
    /// Bit pattern of the single-precision font size.
    pub font_size: u32,
    pub color: Color,
}

impl TextStyle {
    /// The default style: the sentinel font token, size 12.0, opaque white.
    pub open spec fn spec_default() -> TextStyle {
        TextStyle {
            font: FontHandle::spec_default(),
            font_size: DEFAULT_FONT_SIZE_BITS,
            color: Color::spec_opaque_white(),
        }
    }

    /// `self` with the font replaced and everything else kept.
    pub open spec fn spec_with_font(self, font: FontHandle) -> TextStyle {
        TextStyle { font, ..self }
    }

    /// `self` with the font size replaced and everything else kept.
    pub open spec fn spec_with_font_size(self, font_size: u32) -> TextStyle {
        TextStyle { font_size, ..self }
    }

    /// `self` with the color replaced and everything else kept.
    pub open spec fn spec_with_color(self, color: Color) -> TextStyle {
        TextStyle { color, ..self }
    }

    /// Builds a style from a font token, a font size (as its bit pattern)
    /// and a color. Accepts every input; nothing is validated here — a
    /// non-positive size is forwarded as data for the layout engine to
    /// judge.
    pub fn new(font: &FontHandle, font_size: u32, color: Color) -> (r: TextStyle)
        ensures
            r == (TextStyle { font: *font, font_size, color }),
    {
        TextStyle { font: *font, font_size, color }
    }

    /// A new style identical to `self` except for the font. `self` is not
    /// mutated.
    pub fn clone_with_font(&self, font: FontHandle) -> (r: TextStyle)
        ensures
            r == self.spec_with_font(font),
    {
        TextStyle { font, font_size: self.font_size, color: self.color }
    }

    /// A new style identical to `self` except for the font size. `self` is
    /// not mutated.
    pub fn clone_with_font_size(&self, font_size: u32) -> (r: TextStyle)
        ensures
            r == self.spec_with_font_size(font_size),
    {
        TextStyle { font: self.font, font_size, color: self.color }
    }

    /// A new style identical to `self` except for the color. `self` is not
    /// mutated.
    pub fn clone_with_color(&self, color: Color) -> (r: TextStyle)
        ensures
            r == self.spec_with_color(color),
    {
        TextStyle { font: self.font, font_size: self.font_size, color }
    }
}

impl Default for TextStyle {
    /// The default style: the sentinel font token, size 12.0, opaque white.
    fn default() -> (r: TextStyle)
        ensures
            r == TextStyle::spec_default(),
    {
        TextStyle {
            font: FontHandle { id: 0 },
            font_size: DEFAULT_FONT_SIZE_BITS,
            color: Color::opaque_white(),
        }
    }
}

/// Replacing the font with a different one yields a different style.
pub proof fn lemma_with_font_differs(s: TextStyle, font: FontHandle)
    requires
        font != s.font,
    ensures
        s.spec_with_font(font) != s,
{
}

/// Replacing the font size with a different one yields a different style.
pub proof fn lemma_with_font_size_differs(s: TextStyle, font_size: u32)
    requires
        font_size != s.font_size,
    ensures
        s.spec_with_font_size(font_size) != s,
{
}

/// Replacing the color with a different one yields a different style.
pub proof fn lemma_with_color_differs(s: TextStyle, color: Color)
    requires
        color != s.color,
    ensures
        s.spec_with_color(color) != s,
{
}

} // verus!
