//! Data model for styled, multi-section text.
//!
//! A [`text::Text`] value is an ordered sequence of styled runs
//! ([`text::TextSection`]) together with a whole-text alignment
//! ([`align::TextAlignment`]). A downstream glyph-layout engine reads the
//! sections and the alignment, converts the alignment into its own
//! vocabulary (see [`layout`]), and produces glyph placements; this crate
//! defines only the representation and its conversion semantics.

pub mod align;
pub mod engine;
pub mod layout;
pub mod style;
pub mod text;
