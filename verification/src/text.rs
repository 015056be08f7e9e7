//! Content model: [`TextSection`] (one styled run) and [`Text`] (an ordered
//! sequence of runs plus a whole-text alignment).

use vstd::prelude::*;

use crate::align::TextAlignment;
use crate::style::TextStyle;

verus! {

/// One styled run of text: its content and the style it is drawn with. An
/// empty content string is a valid, zero-width run.
#[derive(Clone, Debug)]
pub struct TextSection {
    pub value: String,
    pub style: TextStyle,
}

impl TextSection {
    /// Builds a section from content and style. Accepts every input and
    /// never fails.
    pub fn new(value: String, style: TextStyle) -> (r: TextSection)
        ensures
            r.value@ == value@,
            r.style == style,
    {
        TextSection { value, style }
    }
}

impl Default for TextSection {
    /// The default section: empty content under the default style.
    fn default() -> (r: TextSection)
        ensures
            r.value@ == Seq::<char>::empty(),
            r.style == TextStyle::spec_default(),
    {
        TextSection { value: String::new(), style: TextStyle::default() }
    }
}

/// Styled, multi-section text: the sections in rendering and reading order,
/// and one alignment for the whole text. An empty section list is valid and
/// shows nothing. Sections built one by one may differ in style; only the
/// uniform builder [`Text::with_sections`] guarantees a shared style.
#[derive(Clone, Debug)]
pub struct Text {
    pub sections: Vec<TextSection>,
    pub alignment: TextAlignment,
}

impl Text {
    /// Builds a text with exactly one section holding `value` under
    /// `style`, aligned by `alignment`. Accepts every input and never
    /// fails.
    pub fn with_section(value: String, style: TextStyle, alignment: TextAlignment) -> (r: Text)
        ensures
            r.sections@.len() == 1,
            r.sections@[0].value@ == value@,
            r.sections@[0].style == style,
            r.alignment == alignment,
    {
        Text { sections: vec![TextSection { value, style }], alignment }
    }

    /// Builds a text with one section per element of `values`, in the same
    /// order, every section carrying its own copy of `style` (so restyling
    /// one section later cannot affect another), aligned by `alignment`.
    /// An empty `values` yields a text with no sections.
    pub fn with_sections(values: Vec<String>, style: TextStyle, alignment: TextAlignment) -> (r:
        Text)
        ensures
            r.sections@.len() == values@.len(),
            forall|i: int|
                0 <= i < values@.len() ==> r.sections@[i].value@ == values@[i]@,
            forall|i: int| 0 <= i < values@.len() ==> r.sections@[i].style == style,
            forall|i: int, j: int|
                0 <= i < r.sections@.len() && 0 <= j < r.sections@.len()
                    ==> r.sections@[i].style == r.sections@[j].style,
            r.alignment == alignment,
    {
        let mut sections: Vec<TextSection> = Vec::new();
        let mut idx: usize = 0;
        while idx < values.len()
            invariant
                idx <= values.len(),
                sections@.len() == idx,
                forall|i: int| 0 <= i < idx ==> sections@[i].value@ == values@[i]@,
                forall|i: int| 0 <= i < idx ==> sections@[i].style == style,
            decreases values.len() - idx,
        {
            let value = values[idx].clone();
            sections.push(TextSection { value, style });
            idx = idx + 1;
        }
        Text { sections, alignment }
    }
}

impl Default for Text {
    /// The default text: no sections, default alignment.
    fn default() -> (r: Text)
        ensures
            r.sections@.len() == 0,
            r.alignment == TextAlignment::spec_default(),
    {
        Text { sections: Vec::new(), alignment: TextAlignment::default() }
    }
}

} // verus!
