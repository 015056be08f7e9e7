//! Conversion of this crate's alignment vocabulary into the layout engine's.
//!
//! The layout engine (glyph_brush_layout) has its own alignment enums; the
//! functions here map each of this crate's variants to exactly one of the
//! engine's, with no default arm, so that a variant added to either side
//! without updating the mapping fails to build instead of silently falling
//! back.

use vstd::prelude::*;

use crate::align::HorizontalAlign;
use crate::align::VerticalAlign;

verus! {

impl HorizontalAlign {
    /// The layout-engine variant `self` maps to.
    pub open spec fn spec_to_layout(self) -> glyph_brush_layout::HorizontalAlign {
        match self {
            HorizontalAlign::Left => glyph_brush_layout::HorizontalAlign::Left,
            HorizontalAlign::Center => glyph_brush_layout::HorizontalAlign::Center,
            HorizontalAlign::Right => glyph_brush_layout::HorizontalAlign::Right,
        }
    }

    /// Converts `self` into the layout engine's horizontal alignment.
    pub fn to_layout(self) -> (r: glyph_brush_layout::HorizontalAlign)
        ensures
            r == self.spec_to_layout(),
    {
        match self {
            HorizontalAlign::Left => glyph_brush_layout::HorizontalAlign::Left,
            HorizontalAlign::Center => glyph_brush_layout::HorizontalAlign::Center,
            HorizontalAlign::Right => glyph_brush_layout::HorizontalAlign::Right,
        }
    }
}

impl VerticalAlign {
    /// The layout-engine variant `self` maps to.
    pub open spec fn spec_to_layout(self) -> glyph_brush_layout::VerticalAlign {
        match self {
            VerticalAlign::Top => glyph_brush_layout::VerticalAlign::Top,
            VerticalAlign::Center => glyph_brush_layout::VerticalAlign::Center,
            VerticalAlign::Bottom => glyph_brush_layout::VerticalAlign::Bottom,
        }
    }

    /// Converts `self` into the layout engine's vertical alignment.
    pub fn to_layout(self) -> (r: glyph_brush_layout::VerticalAlign)
        ensures
            r == self.spec_to_layout(),
    {
        match self {
            VerticalAlign::Top => glyph_brush_layout::VerticalAlign::Top,
            VerticalAlign::Center => glyph_brush_layout::VerticalAlign::Center,
            VerticalAlign::Bottom => glyph_brush_layout::VerticalAlign::Bottom,
        }
    }
}

/// Distinct horizontal alignments map to distinct layout-engine variants:
/// together with the exhaustive match above, the conversion is total and
/// injective.
pub proof fn lemma_horizontal_to_layout_injective(a: HorizontalAlign, b: HorizontalAlign)
    requires
        a != b,
    ensures
        a.spec_to_layout() != b.spec_to_layout(),
{
}

/// Distinct vertical alignments map to distinct layout-engine variants:
/// together with the exhaustive match above, the conversion is total and
/// injective.
pub proof fn lemma_vertical_to_layout_injective(a: VerticalAlign, b: VerticalAlign)
    requires
        a != b,
    ensures
        a.spec_to_layout() != b.spec_to_layout(),
{
}

} // verus!
