//! What an icon label needs from the backend that measures and paints it.

use vstd::prelude::*;
use crate::alignment::{Horizontal, Vertical};
use crate::geometry::{Rectangle, Size};

verus! {

/// `iced_native::Color`, an RGBA colour. The library never looks inside one:
/// it stores the colour it is given and hands it on to the renderer.
#[verifier::external_type_specification]
#[verifier::external_body]
pub struct ExColor(iced_native::Color);

/// The ambient style that an element is drawn in.
#[derive(Clone, Copy, Debug, PartialEq)]
pub struct Style {
    /// The colour of text that names no colour of its own.
    pub text_color: iced_native::Color,
}

/// One piece of text, ready to be painted.
#[derive(Debug, PartialEq)]
pub struct Text<'a, Font> {
    /// The characters to paint.
    pub content: &'a str,
    /// The box of the text. Its corner is the point that the alignments
    /// refer to; its extent is the space that layout gave the text.
    pub bounds: Rectangle,
    /// The glyph size.
    pub size: u16,
    /// The colour of the glyphs.
    pub color: iced_native::Color,
    /// The font to take the glyphs from.
    pub font: Font,
    /// Which side of the glyphs sits on the corner of `bounds`, horizontally.
    pub horizontal_alignment: Horizontal,
    /// Which side of the glyphs sits on the corner of `bounds`, vertically.
    pub vertical_alignment: Vertical,
}

/// The mathematical content of a [`Text`].
pub struct TextView<Font> {
    pub content: Seq<char>,
    pub bounds: Rectangle,
    pub size: u16,
    pub color: iced_native::Color,
    pub font: Font,
    pub horizontal_alignment: Horizontal,
    pub vertical_alignment: Vertical,
}

impl<'a, Font> View for Text<'a, Font> {
    type V = TextView<Font>;

    open spec fn view(&self) -> TextView<Font> {
        TextView {
            content: self.content@,
            bounds: self.bounds,
            size: self.size,
            color: self.color,
            font: self.font,
            horizontal_alignment: self.horizontal_alignment,
            vertical_alignment: self.vertical_alignment,
        }
    }
}

/// A backend that can measure text.
///
/// The methods promise nothing: what a label does with a backend is stated
/// over whatever the backend's calls may return.
pub trait Measure {
    /// The handle by which the backend knows a font.
    type Font: Copy;

    /// The glyph size of text that names none.
    fn default_size(&self) -> u16;

    /// The font of icon text that names none.
    fn default_font(&self) -> Self::Font;

    /// Measures `content` at the given glyph size and font, laid out in a box
    /// no larger than `bounds`.
    fn measure(&self, content: &str, size: u16, font: Self::Font, bounds: Size) -> Size;
}

/// A backend that can measure and paint text.
pub trait Renderer: Measure {
    /// Paints one piece of text.
    fn fill_text(&mut self, text: Text<'_, Self::Font>);
}

} // verus!
