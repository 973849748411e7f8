//! Style configuration threaded through layout: the core reads these values
//! but never redefines their meaning.

use vstd::prelude::*;
use crate::geom::Size;

verus! {

/// The style of a page: the size granted to a whole page region.
#[derive(Clone, Copy, Debug, PartialEq, Eq, Structural)]
pub struct PageStyle {
    /// The size of one page.
    pub size: Size,
}

/// The style of running text.
#[derive(Clone, Copy, Debug, PartialEq, Eq, Structural)]
pub struct TextStyle {
    /// The font size.
    pub font_size: u64,
    /// The space between words.
    pub word_spacing: u64,
    /// The space between lines.
    pub line_spacing: u64,
    /// The space between paragraphs.
    pub par_spacing: u64,
}

/// The full style configuration a layout pass reads.
#[derive(Clone, Copy, Debug, PartialEq, Eq, Structural)]
pub struct LayoutStyle {
    /// The page style.
    pub page: PageStyle,
    /// The text style.
    pub text: TextStyle,
}

} // verus!
