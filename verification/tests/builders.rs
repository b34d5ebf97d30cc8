use iced_native::Color;
use icon_text::{Horizontal, IconText, Length, Vertical};

#[test]
fn new_label_has_documented_defaults() {
    let icon = IconText::<u8>::new("x");
    assert_eq!(icon.content(), "x");
    assert_eq!(icon.width_policy(), Length::Shrink);
    assert_eq!(icon.height_policy(), Length::Shrink);
    assert_eq!(icon.horizontal(), Horizontal::Center);
    assert_eq!(icon.vertical(), Vertical::Center);
    assert_eq!(icon.explicit_size(), None);
    assert_eq!(icon.explicit_color(), None);
    assert_eq!(icon.explicit_font(), None);
}

#[test]
fn new_label_accepts_empty_content() {
    let icon = IconText::<u8>::new("");
    assert_eq!(icon.content(), "");
    assert_eq!(icon.explicit_size(), None);
}

#[test]
fn new_label_keeps_glyph_codes_as_given() {
    let icon = IconText::<u8>::new("\u{e800}\u{f101}");
    assert_eq!(icon.content(), "\u{e800}\u{f101}");
}

#[test]
fn size_last_write_wins() {
    let icon = IconText::<u8>::new("x").size(12).size(20);
    assert_eq!(icon.explicit_size(), Some(20));
}

#[test]
fn size_set_twice_to_the_same_value_is_that_value() {
    let icon = IconText::<u8>::new("x").size(12).size(12);
    assert_eq!(icon.explicit_size(), Some(12));
}

#[test]
fn color_last_write_wins() {
    let icon = IconText::<u8>::new("x").color(Color::BLACK).color(Color::WHITE);
    assert_eq!(icon.explicit_color(), Some(Color::WHITE));
}

#[test]
fn font_last_write_wins() {
    let icon = IconText::<u8>::new("x").font(1).font(2);
    assert_eq!(icon.explicit_font(), Some(2));
}

#[test]
fn width_and_height_last_write_wins() {
    let icon = IconText::<u8>::new("x")
        .width(Length::Fill)
        .width(Length::Fixed(30))
        .height(Length::FillPortion(2))
        .height(Length::Fill);
    assert_eq!(icon.width_policy(), Length::Fixed(30));
    assert_eq!(icon.height_policy(), Length::Fill);
}

#[test]
fn alignment_last_write_wins() {
    let icon = IconText::<u8>::new("x")
        .horizontal_alignment(Horizontal::Left)
        .horizontal_alignment(Horizontal::Right)
        .vertical_alignment(Vertical::Bottom)
        .vertical_alignment(Vertical::Top);
    assert_eq!(icon.horizontal(), Horizontal::Right);
    assert_eq!(icon.vertical(), Vertical::Top);
}

#[test]
fn each_builder_sets_its_own_field_only() {
    let icon = IconText::<u8>::new("glyph")
        .size(18)
        .color(Color::WHITE)
        .font(7)
        .width(Length::Fixed(40))
        .height(Length::FillPortion(3))
        .horizontal_alignment(Horizontal::Left)
        .vertical_alignment(Vertical::Bottom);
    assert_eq!(icon.content(), "glyph");
    assert_eq!(icon.explicit_size(), Some(18));
    assert_eq!(icon.explicit_color(), Some(Color::WHITE));
    assert_eq!(icon.explicit_font(), Some(7));
    assert_eq!(icon.width_policy(), Length::Fixed(40));
    assert_eq!(icon.height_policy(), Length::FillPortion(3));
    assert_eq!(icon.horizontal(), Horizontal::Left);
    assert_eq!(icon.vertical(), Vertical::Bottom);
}

#[test]
fn clone_copies_every_field() {
    let icon = IconText::<u8>::new("glyph")
        .size(18)
        .color(Color::WHITE)
        .font(7)
        .width(Length::Fixed(40))
        .height(Length::Fill)
        .horizontal_alignment(Horizontal::Right)
        .vertical_alignment(Vertical::Top);
    let copy = icon.clone();
    assert_eq!(copy.content(), icon.content());
    assert_eq!(copy.explicit_size(), icon.explicit_size());
    assert_eq!(copy.explicit_color(), icon.explicit_color());
    assert_eq!(copy.explicit_font(), icon.explicit_font());
    assert_eq!(copy.width_policy(), icon.width_policy());
    assert_eq!(copy.height_policy(), icon.height_policy());
    assert_eq!(copy.horizontal(), icon.horizontal());
    assert_eq!(copy.vertical(), icon.vertical());
}

#[test]
fn rebuilding_a_clone_leaves_the_source_alone() {
    let source = IconText::<u8>::new("x").size(12).width(Length::Fill);
    let copy = source
        .clone()
        .size(20)
        .color(Color::BLACK)
        .font(4)
        .width(Length::Shrink)
        .height(Length::Fixed(9))
        .horizontal_alignment(Horizontal::Left)
        .vertical_alignment(Vertical::Bottom);
    assert_eq!(copy.explicit_size(), Some(20));
    assert_eq!(copy.width_policy(), Length::Shrink);

    assert_eq!(source.content(), "x");
    assert_eq!(source.explicit_size(), Some(12));
    assert_eq!(source.explicit_color(), None);
    assert_eq!(source.explicit_font(), None);
    assert_eq!(source.width_policy(), Length::Fill);
    assert_eq!(source.height_policy(), Length::Shrink);
    assert_eq!(source.horizontal(), Horizontal::Center);
    assert_eq!(source.vertical(), Vertical::Center);
}
