//! Laws of the label's builders and of its layout key.

use vstd::prelude::*;
use crate::alignment::{Horizontal, Vertical};
use crate::hash::lemma_key_bytes_injective;
use crate::icon_text::IconTextView;
use crate::length::Length;

verus! {

/// The last glyph size set is the one that counts: setting a size and then
/// another leaves the label as if only the second had been set.
pub proof fn lemma_size_last_write_wins<Font>(icon: IconTextView<Font>, first: u16, second: u16)
    ensures
        icon.size(first).size(second) == icon.size(second),
        icon.size(first).size(second).explicit_size == Some(second),
{
}

/// The last colour set is the one that counts.
pub proof fn lemma_color_last_write_wins<Font>(
    icon: IconTextView<Font>,
    first: iced_native::Color,
    second: iced_native::Color,
)
    ensures
        icon.color(first).color(second) == icon.color(second),
        icon.color(first).color(second).explicit_color == Some(second),
{
}

/// The last font set is the one that counts.
pub proof fn lemma_font_last_write_wins<Font>(icon: IconTextView<Font>, first: Font, second: Font)
    ensures
        icon.font(first).font(second) == icon.font(second),
        icon.font(first).font(second).explicit_font == Some(second),
{
}

/// The last sizing intent set along an axis is the one that counts.
pub proof fn lemma_length_last_write_wins<Font>(
    icon: IconTextView<Font>,
    first: Length,
    second: Length,
)
    ensures
        icon.width(first).width(second) == icon.width(second),
        icon.width(first).width(second).width_policy == second,
        icon.height(first).height(second) == icon.height(second),
        icon.height(first).height(second).height_policy == second,
{
}

/// The last alignment set along an axis is the one that counts.
pub proof fn lemma_alignment_last_write_wins<Font>(
    icon: IconTextView<Font>,
    first_horizontal: Horizontal,
    second_horizontal: Horizontal,
    first_vertical: Vertical,
    second_vertical: Vertical,
)
    ensures
        icon.horizontal_alignment(first_horizontal).horizontal_alignment(second_horizontal)
            == icon.horizontal_alignment(second_horizontal),
        icon.horizontal_alignment(first_horizontal).horizontal_alignment(
            second_horizontal,
        ).horizontal_alignment == second_horizontal,
        icon.vertical_alignment(first_vertical).vertical_alignment(second_vertical)
            == icon.vertical_alignment(second_vertical),
        icon.vertical_alignment(first_vertical).vertical_alignment(
            second_vertical,
        ).vertical_alignment == second_vertical,
{
}

/// Whether two labels agree in everything but, possibly, the glyph size.
pub open spec fn same_but_size<Font>(a: IconTextView<Font>, b: IconTextView<Font>) -> bool {
    IconTextView { explicit_size: None, ..a } == IconTextView { explicit_size: None, ..b }
}

/// Whether two labels agree in everything but, possibly, the colour.
pub open spec fn same_but_color<Font>(a: IconTextView<Font>, b: IconTextView<Font>) -> bool {
    IconTextView { explicit_color: None, ..a } == IconTextView { explicit_color: None, ..b }
}

/// Whether two labels agree in everything but, possibly, the font.
pub open spec fn same_but_font<Font>(a: IconTextView<Font>, b: IconTextView<Font>) -> bool {
    IconTextView { explicit_font: None, ..a } == IconTextView { explicit_font: None, ..b }
}

/// Whether two labels agree in everything but, possibly, the two sizing
/// intents.
pub open spec fn same_but_lengths<Font>(a: IconTextView<Font>, b: IconTextView<Font>) -> bool {
    a.width(Length::Shrink).height(Length::Shrink) == b.width(Length::Shrink).height(
        Length::Shrink,
    )
}

/// Whether two labels agree in everything but, possibly, the two alignments.
pub open spec fn same_but_alignments<Font>(a: IconTextView<Font>, b: IconTextView<Font>) -> bool {
    a.horizontal_alignment(Horizontal::Center).vertical_alignment(Vertical::Center)
        == b.horizontal_alignment(Horizontal::Center).vertical_alignment(Vertical::Center)
}

/// A label and its copy are separate values: whatever a builder then sets on
/// the copy, the label that it was copied from keeps every field, and the
/// rebuilt copy differs from that label in the field that was set at most.
pub proof fn lemma_copy_is_independent<Font>(
    source: IconTextView<Font>,
    copy: IconTextView<Font>,
    size: u16,
    color: iced_native::Color,
    font: Font,
    width: Length,
    height: Length,
    horizontal: Horizontal,
    vertical: Vertical,
)
    requires
        copy == source,
    ensures
        same_but_size(copy.size(size), source),
        same_but_color(copy.color(color), source),
        same_but_font(copy.font(font), source),
        same_but_lengths(copy.width(width), source),
        copy.width(width).height_policy == source.height_policy,
        same_but_lengths(copy.height(height), source),
        copy.height(height).width_policy == source.width_policy,
        same_but_alignments(copy.horizontal_alignment(horizontal), source),
        copy.horizontal_alignment(horizontal).vertical_alignment == source.vertical_alignment,
        same_but_alignments(copy.vertical_alignment(vertical), source),
        copy.vertical_alignment(vertical).horizontal_alignment == source.horizontal_alignment,
{
}

/// Two labels have the same layout key exactly when they agree in content,
/// glyph size and both sizing intents. So labels that differ in colour, font
/// or alignment alone share a key, and labels that differ in content never
/// do.
pub proof fn lemma_layout_key_equal_iff<Font>(a: IconTextView<Font>, b: IconTextView<Font>)
    ensures
        a.layout_key() == b.layout_key() <==> (a.content == b.content && a.explicit_size
            == b.explicit_size && a.width_policy == b.width_policy && a.height_policy
            == b.height_policy),
{
}

/// Two labels feed a hasher the same bytes exactly when they agree in
/// content, glyph size and both sizing intents. So labels that differ in
/// colour, font or alignment alone are hashed alike, and labels that differ in
/// content are never fed alike.
pub proof fn lemma_layout_bytes_equal_iff<Font>(a: IconTextView<Font>, b: IconTextView<Font>)
    ensures
        a.layout_key().bytes() == b.layout_key().bytes() <==> (a.content == b.content
            && a.explicit_size == b.explicit_size && a.width_policy == b.width_policy
            && a.height_policy == b.height_policy),
{
    if a.layout_key().bytes() == b.layout_key().bytes() {
        lemma_key_bytes_injective(a.layout_key(), b.layout_key());
    }
}

/// Colour, font and alignments are no part of the layout key.
pub proof fn lemma_layout_key_ignores_paint<Font>(
    icon: IconTextView<Font>,
    color: iced_native::Color,
    font: Font,
    horizontal: Horizontal,
    vertical: Vertical,
)
    ensures
        icon.color(color).layout_key() == icon.layout_key(),
        icon.font(font).layout_key() == icon.layout_key(),
        icon.horizontal_alignment(horizontal).layout_key() == icon.layout_key(),
        icon.vertical_alignment(vertical).layout_key() == icon.layout_key(),
{
}

} // verus!
