//! Alignment model: where text grows from, relative to its anchor (the
//! nominal render position).
//!
//! Each enum carries a stable tagged encoding (`tag` / `from_tag`) so that
//! alignment values round-trip through persisted configuration: the tags are
//! part of the public contract and never change meaning.

use vstd::prelude::*;

verus! {

/// Horizontal alignment preference for positioning and bounds.
#[derive(Clone, Copy, Debug, Hash, PartialEq, Eq, Structural)]
pub enum HorizontalAlign {
    /// The leftmost character sits immediately right of the anchor; bounds
    /// extend rightward from it.
    Left,
    /// Leftmost and rightmost characters are equidistant from the anchor;
    /// bounds extend symmetrically.
    Center,
    /// The rightmost character sits immediately left of the anchor; bounds
    /// extend leftward from it.
    Right,
}

/// Vertical alignment preference for positioning and bounds.
#[derive(Clone, Copy, Debug, Hash, PartialEq, Eq, Structural)]
pub enum VerticalAlign {
    /// Characters and bounds begin at the anchor and extend downward.
    Top,
    /// Characters and bounds center on the anchor, extending equally both
    /// ways.
    Center,
    /// Characters and bounds end at the anchor, extending upward.
    Bottom,
}

/// The whole-text alignment: one horizontal and one vertical preference.
#[derive(Clone, Copy, Debug, Hash, PartialEq, Eq, Structural)]
pub struct TextAlignment {
    pub vertical: VerticalAlign,
    pub horizontal: HorizontalAlign,
}

impl TextAlignment {
    /// The default alignment: top-left.
    pub open spec fn spec_default() -> TextAlignment {
        TextAlignment { vertical: VerticalAlign::Top, horizontal: HorizontalAlign::Left }
    }
}

impl Default for TextAlignment {
    /// The default alignment: top-left.
    fn default() -> (r: TextAlignment)
        ensures
            r == TextAlignment::spec_default(),
    {
        TextAlignment { vertical: VerticalAlign::Top, horizontal: HorizontalAlign::Left }
    }
}

impl HorizontalAlign {
    /// The stable persisted tag of each variant.
    pub open spec fn spec_tag(self) -> u8 {
        match self {
            HorizontalAlign::Left => 0,
            HorizontalAlign::Center => 1,
            HorizontalAlign::Right => 2,
        }
    }

    /// The variant a persisted tag decodes to, if any.
    pub open spec fn spec_from_tag(tag: u8) -> Option<HorizontalAlign> {
        match tag {
            0 => Some(HorizontalAlign::Left),
            1 => Some(HorizontalAlign::Center),
            2 => Some(HorizontalAlign::Right),
            _ => None,
        }
    }

    /// Encodes `self` as its stable persisted tag.
    pub fn tag(self) -> (t: u8)
        ensures
            t == self.spec_tag(),
    {
        match self {
            HorizontalAlign::Left => 0,
            HorizontalAlign::Center => 1,
            HorizontalAlign::Right => 2,
        }
    }

    /// Decodes a persisted tag; an unknown tag is rejected, never defaulted.
    pub fn from_tag(tag: u8) -> (r: Option<HorizontalAlign>)
        ensures
            r == HorizontalAlign::spec_from_tag(tag),
    {
        match tag {
            0 => Some(HorizontalAlign::Left),
            1 => Some(HorizontalAlign::Center),
            2 => Some(HorizontalAlign::Right),
            _ => None,
        }
    }
}

impl VerticalAlign {
    /// The stable persisted tag of each variant.
    pub open spec fn spec_tag(self) -> u8 {
        match self {
            VerticalAlign::Top => 0,
            VerticalAlign::Center => 1,
            VerticalAlign::Bottom => 2,
        }
    }

    /// The variant a persisted tag decodes to, if any.
    pub open spec fn spec_from_tag(tag: u8) -> Option<VerticalAlign> {
        match tag {
            0 => Some(VerticalAlign::Top),
            1 => Some(VerticalAlign::Center),
            2 => Some(VerticalAlign::Bottom),
            _ => None,
        }
    }

    /// Encodes `self` as its stable persisted tag.
    pub fn tag(self) -> (t: u8)
        ensures
            t == self.spec_tag(),
    {
        match self {
            VerticalAlign::Top => 0,
            VerticalAlign::Center => 1,
            VerticalAlign::Bottom => 2,
        }
    }

    /// Decodes a persisted tag; an unknown tag is rejected, never defaulted.
    pub fn from_tag(tag: u8) -> (r: Option<VerticalAlign>)
        ensures
            r == VerticalAlign::spec_from_tag(tag),
    {
        match tag {
            0 => Some(VerticalAlign::Top),
            1 => Some(VerticalAlign::Center),
            2 => Some(VerticalAlign::Bottom),
            _ => None,
        }
    }
}

/// A horizontal alignment round-trips through its persisted tag.
pub proof fn lemma_horizontal_tag_round_trip(h: HorizontalAlign)
    ensures
        HorizontalAlign::spec_from_tag(h.spec_tag()) == Some(h),
{
}

/// A vertical alignment round-trips through its persisted tag.
pub proof fn lemma_vertical_tag_round_trip(v: VerticalAlign)
    ensures
        VerticalAlign::spec_from_tag(v.spec_tag()) == Some(v),
{
}

} // verus!
