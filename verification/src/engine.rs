//! Declarations of the layout engine's alignment enums.
//!
//! glyph_brush_layout's two alignment enums are public and fieldless; the
//! declarations here make their variants visible to verified code, so the
//! conversions in [`crate::layout`] can be checked variant by variant.

use vstd::prelude::*;

use glyph_brush_layout::HorizontalAlign as EngineHorizontal;
use glyph_brush_layout::VerticalAlign as EngineVertical;

verus! {

/// Relies on the layout engine's horizontal alignment being exactly the
/// public fieldless enum `{ Left, Center, Right }`; the declaration lets
/// verified code build and tell apart its variants.
#[verifier::external_type_specification]
pub struct ExEngineHorizontal(EngineHorizontal);

/// Relies on the layout engine's vertical alignment being exactly the
/// public fieldless enum `{ Top, Center, Bottom }`; the declaration lets
/// verified code build and tell apart its variants.
#[verifier::external_type_specification]
pub struct ExEngineVertical(EngineVertical);

} // verus!
