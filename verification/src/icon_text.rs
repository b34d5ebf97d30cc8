//! The icon label: what it holds, how it is built, measured and painted.

use vstd::prelude::*;
use crate::alignment::{Horizontal, Vertical};
use crate::geometry::{Point, Rectangle, Size};
use crate::hash::{write_bytes, written, LayoutKey, LayoutKeyView, ICON_TEXT_MARKER};
use crate::layout::{Layout, Limits, Node};
use crate::length::Length;
use crate::renderer::{Measure, Renderer, Style, Text, TextView};

verus! {

/// A piece of text that is drawn with the icon font of the renderer, unless
/// it names a font of its own.
#[derive(Debug)]
pub struct IconText<Font> {
    content: String,
    size: Option<u16>,
    color: Option<iced_native::Color>,
    font: Option<Font>,
    width: Length,
    height: Length,
    horizontal_alignment: Horizontal,
    vertical_alignment: Vertical,
}

/// The mathematical content of an [`IconText`].
pub struct IconTextView<Font> {
    /// The glyph codes to show.
    pub content: Seq<char>,
    /// The glyph size, where the label names one.
    pub explicit_size: Option<u16>,
    /// The colour, where the label names one.
    pub explicit_color: Option<iced_native::Color>,
    /// The font, where the label names one.
    pub explicit_font: Option<Font>,
    /// The sizing intent along the horizontal axis.
    pub width_policy: Length,
    /// The sizing intent along the vertical axis.
    pub height_policy: Length,
    /// Where the glyphs sit in the label's box, horizontally.
    pub horizontal_alignment: Horizontal,
    /// Where the glyphs sit in the label's box, vertically.
    pub vertical_alignment: Vertical,
}

impl<Font> View for IconText<Font> {
    type V = IconTextView<Font>;

    closed spec fn view(&self) -> IconTextView<Font> {
        IconTextView {
            content: self.content@,
            explicit_size: self.size,
            explicit_color: self.color,
            explicit_font: self.font,
            width_policy: self.width,
            height_policy: self.height,
            horizontal_alignment: self.horizontal_alignment,
            vertical_alignment: self.vertical_alignment,
        }
    }
}

/// Horizontal position of the point that a horizontal alignment refers to on
/// a box: its left edge, its middle or its right edge.
pub open spec fn anchor_x(bounds: Rectangle, alignment: Horizontal) -> int {
    match alignment {
        Horizontal::Left => bounds.x as int,
        Horizontal::Center => bounds.spec_center_x(),
        Horizontal::Right => bounds.x + bounds.width,
    }
}

/// Vertical position of the point that a vertical alignment refers to on a
/// box: its top edge, its middle or its bottom edge.
pub open spec fn anchor_y(bounds: Rectangle, alignment: Vertical) -> int {
    match alignment {
        Vertical::Top => bounds.y as int,
        Vertical::Center => bounds.spec_center_y(),
        Vertical::Bottom => bounds.y + bounds.height,
    }
}

/// The point on `bounds` that the two alignments refer to.
pub fn anchor(bounds: &Rectangle, horizontal: Horizontal, vertical: Vertical) -> (point: Point)
    requires
        bounds.fits(),
    ensures
        point.x == anchor_x(*bounds, horizontal),
        point.y == anchor_y(*bounds, vertical),
{
    let x: i64 = match horizontal {
        Horizontal::Left => bounds.x,
        Horizontal::Center => bounds.center_x(),
        Horizontal::Right => bounds.x + bounds.width as i64,
    };
    let y: i64 = match vertical {
        Vertical::Top => bounds.y,
        Vertical::Center => bounds.center_y(),
        Vertical::Bottom => bounds.y + bounds.height as i64,
    };
    Point { x, y }
}

impl<Font> IconTextView<Font> {
    /// A label as it is first made: shrinking on both axes, centred on both
    /// axes, with no size, colour or font of its own.
    pub open spec fn initial(content: Seq<char>) -> Self {
        IconTextView {
            content,
            explicit_size: None,
            explicit_color: None,
            explicit_font: None,
            width_policy: Length::Shrink,
            height_policy: Length::Shrink,
            horizontal_alignment: Horizontal::Center,
            vertical_alignment: Vertical::Center,
        }
    }

    /// This label with its glyph size set.
    pub open spec fn size(self, size: u16) -> Self {
        IconTextView { explicit_size: Some(size), ..self }
    }

    /// This label with its colour set.
    pub open spec fn color(self, color: iced_native::Color) -> Self {
        IconTextView { explicit_color: Some(color), ..self }
    }

    /// This label with its font set.
    pub open spec fn font(self, font: Font) -> Self {
        IconTextView { explicit_font: Some(font), ..self }
    }

    /// This label with its horizontal sizing intent set.
    pub open spec fn width(self, width: Length) -> Self {
        IconTextView { width_policy: width, ..self }
    }

    /// This label with its vertical sizing intent set.
    pub open spec fn height(self, height: Length) -> Self {
        IconTextView { height_policy: height, ..self }
    }

    /// This label with its horizontal alignment set.
    pub open spec fn horizontal_alignment(self, alignment: Horizontal) -> Self {
        IconTextView { horizontal_alignment: alignment, ..self }
    }

    /// This label with its vertical alignment set.
    pub open spec fn vertical_alignment(self, alignment: Vertical) -> Self {
        IconTextView { vertical_alignment: alignment, ..self }
    }

    /// The glyph size to measure and paint with: the label's own, else the
    /// given default.
    pub open spec fn effective_size(self, default_size: u16) -> u16 {
        match self.explicit_size {
            Some(size) => size,
            None => default_size,
        }
    }

    /// The font to measure and paint with: the label's own, else the given
    /// default.
    pub open spec fn effective_font(self, default_font: Font) -> Font {
        match self.explicit_font {
            Some(font) => font,
            None => default_font,
        }
    }

    /// The colour to paint with: the label's own, else the text colour of
    /// the style.
    pub open spec fn effective_color(self, style: Style) -> iced_native::Color {
        match self.explicit_color {
            Some(color) => color,
            None => style.text_color,
        }
    }

    /// The limits that the label is measured and resolved under: the given
    /// ones with the label's two sizing intents applied.
    pub open spec fn limits(self, limits: Limits) -> Limits {
        limits.spec_width(self.width_policy).spec_height(self.height_policy)
    }

    /// The size of the label's node, for content that measures `measured`.
    pub open spec fn node_size(self, limits: Limits, measured: Size) -> Size {
        self.limits(limits).spec_resolve(measured)
    }

    /// What the label contributes to a layout hash: the marker of icon
    /// labels, the content, the glyph size and the two sizing intents. Colour,
    /// font and alignments are no part of it.
    pub open spec fn layout_key(self) -> LayoutKeyView {
        LayoutKeyView {
            marker: ICON_TEXT_MARKER,
            content: self.content,
            size: self.explicit_size,
            width: self.width_policy,
            height: self.height_policy,
        }
    }

    /// The one piece of text that the label paints into `bounds`.
    pub open spec fn paint(
        self,
        style: Style,
        bounds: Rectangle,
        default_size: u16,
        default_font: Font,
    ) -> TextView<Font> {
        TextView {
            content: self.content,
            bounds: Rectangle {
                x: anchor_x(bounds, self.horizontal_alignment) as i64,
                y: anchor_y(bounds, self.vertical_alignment) as i64,
                width: bounds.width,
                height: bounds.height,
            },
            size: self.effective_size(default_size),
            color: self.effective_color(style),
            font: self.effective_font(default_font),
            horizontal_alignment: self.horizontal_alignment,
            vertical_alignment: self.vertical_alignment,
        }
    }
}

impl<Font: Copy> IconText<Font> {
    /// Creates a label that shows the given glyph codes.
    pub fn new(label: &str) -> (icon: Self)
        ensures
            icon@ == IconTextView::<Font>::initial(label@),
    {
        IconText {
            content: label.to_owned(),
            size: None,
            color: None,
            font: None,
            width: Length::Shrink,
            height: Length::Shrink,
            horizontal_alignment: Horizontal::Center,
            vertical_alignment: Vertical::Center,
        }
    }

    /// Sets the glyph size.
    pub fn size(self, size: u16) -> (icon: Self)
        ensures
            icon@ == self@.size(size),
    {
        let mut icon = self;
        icon.size = Some(size);
        icon
    }

    /// Sets the colour.
    pub fn color(self, color: iced_native::Color) -> (icon: Self)
        ensures
            icon@ == self@.color(color),
    {
        let mut icon = self;
        icon.color = Some(color);
        icon
    }

    /// Sets the font.
    pub fn font(self, font: Font) -> (icon: Self)
        ensures
            icon@ == self@.font(font),
    {
        let mut icon = self;
        icon.font = Some(font);
        icon
    }

    /// Sets the sizing intent along the horizontal axis.
    pub fn width(self, width: Length) -> (icon: Self)
        ensures
            icon@ == self@.width(width),
    {
        let mut icon = self;
        icon.width = width;
        icon
    }

    /// Sets the sizing intent along the vertical axis.
    pub fn height(self, height: Length) -> (icon: Self)
        ensures
            icon@ == self@.height(height),
    {
        let mut icon = self;
        icon.height = height;
        icon
    }

    /// Sets the horizontal alignment.
    pub fn horizontal_alignment(self, alignment: Horizontal) -> (icon: Self)
        ensures
            icon@ == self@.horizontal_alignment(alignment),
    {
        let mut icon = self;
        icon.horizontal_alignment = alignment;
        icon
    }

    /// Sets the vertical alignment.
    pub fn vertical_alignment(self, alignment: Vertical) -> (icon: Self)
        ensures
            icon@ == self@.vertical_alignment(alignment),
    {
        let mut icon = self;
        icon.vertical_alignment = alignment;
        icon
    }
}

impl<Font: Copy> IconTextView<Font> {
    /// Whether `size` is a glyph size that the label may be measured and
    /// painted with on the given renderer: the label's own, or where it has
    /// none, one that the renderer may report as its default.
    pub open spec fn sized_by<R: Measure<Font = Font>>(self, renderer: &R, size: u16) -> bool {
        match self.explicit_size {
            Some(own) => size == own,
            None => call_ensures(R::default_size, (renderer,), size),
        }
    }

    /// Whether `font` is a font that the label may be measured and painted
    /// with on the given renderer: the label's own, or where it has none, one
    /// that the renderer may report as its default.
    pub open spec fn set_in<R: Measure<Font = Font>>(self, renderer: &R, font: Font) -> bool {
        match self.explicit_font {
            Some(own) => font == own,
            None => call_ensures(R::default_font, (renderer,), font),
        }
    }

    /// Whether `measured` is a size that the renderer may report for the
    /// label under the given limits: the answer to one call of `measure`, with
    /// the label's content, its glyph size and font, and the maximum of the
    /// limits that the label is resolved under.
    pub open spec fn measured_by<R: Measure<Font = Font>>(
        self,
        renderer: &R,
        limits: Limits,
        measured: Size,
    ) -> bool {
        exists|content: &str, size: u16, font: Font|
            content@ == self.content && self.sized_by(renderer, size) && self.set_in(
                renderer,
                font,
            ) && #[trigger] call_ensures(
                R::measure,
                (renderer, content, size, font, self.limits(limits).max),
                measured,
            )
    }

    /// Whether `text` is what the label paints into `bounds` on the given
    /// renderer: the text of [`Self::paint`], with a glyph size and a font
    /// that the label may be painted with there.
    pub open spec fn painted_by<R: Measure<Font = Font>>(
        self,
        renderer: &R,
        style: Style,
        bounds: Rectangle,
        text: TextView<Font>,
    ) -> bool {
        exists|size: u16, font: Font|
            self.sized_by(renderer, size) && self.set_in(renderer, font) && text
                == #[trigger] self.paint(style, bounds, size, font)
    }
}

impl<Font: Copy> IconText<Font> {
    /// The glyph codes that the label shows.
    pub fn content(&self) -> (content: &str)
        ensures
            content@ == self@.content,
    {
        self.content.as_str()
    }

    /// The glyph size, where the label names one.
    pub fn explicit_size(&self) -> (size: Option<u16>)
        ensures
            size == self@.explicit_size,
    {
        self.size
    }

    /// The colour, where the label names one.
    pub fn explicit_color(&self) -> (color: Option<iced_native::Color>)
        ensures
            color == self@.explicit_color,
    {
        self.color
    }

    /// The font, where the label names one.
    pub fn explicit_font(&self) -> (font: Option<Font>)
        ensures
            font == self@.explicit_font,
    {
        self.font
    }

    /// The sizing intent along the horizontal axis.
    pub fn width_policy(&self) -> (width: Length)
        ensures
            width == self@.width_policy,
    {
        self.width
    }

    /// The sizing intent along the vertical axis.
    pub fn height_policy(&self) -> (height: Length)
        ensures
            height == self@.height_policy,
    {
        self.height
    }

    /// Where the glyphs sit in the label's box, horizontally.
    pub fn horizontal(&self) -> (alignment: Horizontal)
        ensures
            alignment == self@.horizontal_alignment,
    {
        self.horizontal_alignment
    }

    /// Where the glyphs sit in the label's box, vertically.
    pub fn vertical(&self) -> (alignment: Vertical)
        ensures
            alignment == self@.vertical_alignment,
    {
        self.vertical_alignment
    }

    /// The limits that the label is measured and resolved under.
    pub fn limits(&self, limits: &Limits) -> (own: Limits)
        ensures
            own == self@.limits(*limits),
    {
        limits.width(self.width).height(self.height)
    }

    /// The node of the label, for content that measures `measured` under the
    /// given limits.
    pub fn resolve(&self, limits: &Limits, measured: Size) -> (node: Node)
        ensures
            node.size == self@.node_size(*limits, measured),
            node.children@.len() == 0,
    {
        let own = self.limits(limits);
        Node::new(own.resolve(measured))
    }

    /// Lays the label out: has the renderer measure it once and resolves the
    /// measured size under the limits.
    pub fn layout<R: Measure<Font = Font>>(&self, renderer: &R, limits: &Limits) -> (node: Node)
        ensures
            exists|measured: Size| #[trigger]
                self@.measured_by(renderer, *limits, measured) && node.size == self@.node_size(
                    *limits,
                    measured,
                ),
            node.children@.len() == 0,
    {
        let own = self.limits(limits);
        let size: u16 = match self.size {
            Some(size) => size,
            None => renderer.default_size(),
        };
        let font = match self.font {
            Some(font) => font,
            None => renderer.default_font(),
        };
        let measured = renderer.measure(self.content.as_str(), size, font, own.max());
        assert(self@.measured_by(renderer, *limits, measured));
        Node::new(own.resolve(measured))
    }

    /// The one piece of text that the label paints into `bounds`, where text
    /// without a size or font of its own takes the given defaults.
    pub fn paint(&self, style: &Style, bounds: Rectangle, default_size: u16, default_font: Font) -> (text: Text<'_, Font>)
        requires
            bounds.fits(),
        ensures
            text@ == self@.paint(*style, bounds, default_size, default_font),
    {
        let corner = anchor(&bounds, self.horizontal_alignment, self.vertical_alignment);
        Text {
            content: self.content.as_str(),
            bounds: Rectangle { x: corner.x, y: corner.y, width: bounds.width, height: bounds.height },
            size: match self.size {
                Some(size) => size,
                None => default_size,
            },
            color: match self.color {
                Some(color) => color,
                None => style.text_color,
            },
            font: match self.font {
                Some(font) => font,
                None => default_font,
            },
            horizontal_alignment: self.horizontal_alignment,
            vertical_alignment: self.vertical_alignment,
        }
    }

    /// Draws the label: hands the renderer exactly one piece of text. The
    /// cursor and the viewport play no part in it.
    pub fn draw<R: Renderer<Font = Font>>(
        &self,
        renderer: &mut R,
        style: &Style,
        layout: Layout<'_>,
        _cursor_position: Point,
        _viewport: &Rectangle,
    )
        ensures
            exists|target: &mut R, text: Text<Font>|
                *target == *old(renderer) && *final(target) == *final(renderer)
                    && self@.painted_by(&*old(renderer), *style, layout.bounds(), text@)
                    && #[trigger] call_ensures(R::fill_text, (target, text), ()),
    {
        let bounds = layout.bounds();
        let size: u16 = match self.size {
            Some(size) => size,
            None => renderer.default_size(),
        };
        let font = match self.font {
            Some(font) => font,
            None => renderer.default_font(),
        };
        let text = self.paint(style, bounds, size, font);
        renderer.fill_text(text);
    }
}

impl<Font: Copy> IconText<Font> {
    /// What the label contributes to a layout hash.
    pub fn layout_key(&self) -> (key: LayoutKey<'_>)
        ensures
            key@ == self@.layout_key(),
    {
        LayoutKey {
            marker: ICON_TEXT_MARKER,
            content: self.content.as_str(),
            size: self.size,
            width: self.width,
            height: self.height,
        }
    }

    /// Feeds the label's layout key to the hasher of a user interface: the
    /// bytes of the key are written to it, after whatever it was fed before.
    pub fn hash_layout(&self, state: &mut iced_native::Hasher)
        ensures
            written(*final(state)) == written(*old(state)) + self@.layout_key().bytes(),
    {
        let key = self.layout_key();
        let bytes = key.to_bytes();
        write_bytes(state, bytes.as_slice());
    }
}

impl<Font: Copy> Clone for IconText<Font> {
    /// Duplicates the label, field for field.
    fn clone(&self) -> (copy: Self)
        ensures
            copy@ == self@,
    {
        IconText {
            content: self.content.clone(),
            size: self.size,
            color: self.color,
            font: self.font,
            width: self.width,
            height: self.height,
            horizontal_alignment: self.horizontal_alignment,
            vertical_alignment: self.vertical_alignment,
        }
    }
}

} // verus!
