use icon_text::{Length, Limits, Size};

fn limits() -> Limits {
    Limits::new(Size { width: 10, height: 5 }, Size { width: 200, height: 100 })
}

#[test]
fn new_limits_do_not_fill_yet() {
    let limits = limits();
    assert_eq!(limits.min, Size { width: 10, height: 5 });
    assert_eq!(limits.max, Size { width: 200, height: 100 });
    assert_eq!(limits.fill, Size { width: u32::MAX, height: u32::MAX });
    assert_eq!(limits.max(), Size { width: 200, height: 100 });
}

#[test]
fn shrink_lowers_fill_to_the_minimum() {
    let limits = limits().width(Length::Shrink).height(Length::Shrink);
    assert_eq!(limits.min, Size { width: 10, height: 5 });
    assert_eq!(limits.max, Size { width: 200, height: 100 });
    assert_eq!(limits.fill, Size { width: 10, height: 5 });
}

#[test]
fn fill_caps_fill_at_the_maximum() {
    let limits = limits().width(Length::Fill).height(Length::FillPortion(3));
    assert_eq!(limits.min, Size { width: 10, height: 5 });
    assert_eq!(limits.max, Size { width: 200, height: 100 });
    assert_eq!(limits.fill, Size { width: 200, height: 100 });
}

#[test]
fn fill_keeps_a_fill_extent_below_the_maximum() {
    let limits = Limits {
        min: Size { width: 0, height: 0 },
        max: Size { width: 200, height: 100 },
        fill: Size { width: 150, height: 100 },
    };
    assert_eq!(limits.width(Length::Fill).fill.width, 150);
}

#[test]
fn fixed_forces_the_extent_on_one_axis_only() {
    let limits = limits().width(Length::Fixed(40));
    assert_eq!(limits.min, Size { width: 40, height: 5 });
    assert_eq!(limits.max, Size { width: 40, height: 100 });
    assert_eq!(limits.fill, Size { width: 40, height: u32::MAX });

    let limits = self::limits().height(Length::Fixed(40));
    assert_eq!(limits.min, Size { width: 10, height: 40 });
    assert_eq!(limits.max, Size { width: 200, height: 40 });
    assert_eq!(limits.fill, Size { width: u32::MAX, height: 40 });
}

#[test]
fn fixed_is_capped_at_the_maximum() {
    let limits = limits().width(Length::Fixed(500));
    assert_eq!(limits.min.width, 200);
    assert_eq!(limits.max.width, 200);
    assert_eq!(limits.fill.width, 200);
}

#[test]
fn fixed_is_raised_to_the_minimum() {
    let limits = limits().height(Length::Fixed(2));
    assert_eq!(limits.min.height, 5);
    assert_eq!(limits.max.height, 5);
    assert_eq!(limits.fill.height, 5);
}

#[test]
fn resolve_under_shrink_takes_the_measured_size() {
    let limits = limits().width(Length::Shrink).height(Length::Shrink);
    assert_eq!(limits.resolve(Size { width: 30, height: 20 }), Size { width: 30, height: 20 });
}

#[test]
fn resolve_caps_at_the_maximum() {
    let limits = limits().width(Length::Shrink).height(Length::Shrink);
    assert_eq!(limits.resolve(Size { width: 300, height: 20 }), Size { width: 200, height: 20 });
}

#[test]
fn resolve_raises_to_the_fill_extent() {
    let limits = limits().width(Length::Shrink).height(Length::Shrink);
    assert_eq!(limits.resolve(Size { width: 3, height: 2 }), Size { width: 10, height: 5 });
}

#[test]
fn resolve_under_fill_takes_all_the_space() {
    let limits = limits().width(Length::Fill).height(Length::Fill);
    assert_eq!(limits.resolve(Size { width: 30, height: 20 }), Size { width: 200, height: 100 });
}

#[test]
fn resolve_under_fixed_takes_the_fixed_extent() {
    let limits = limits().width(Length::Fixed(40)).height(Length::Fixed(25));
    assert_eq!(limits.resolve(Size { width: 30, height: 90 }), Size { width: 40, height: 25 });
}

#[test]
fn resolve_of_degenerate_limits_follows_the_same_rule() {
    let limits = Limits {
        min: Size { width: 50, height: 50 },
        max: Size { width: 0, height: 0 },
        fill: Size { width: 0, height: 0 },
    };
    assert_eq!(limits.resolve(Size { width: 30, height: 20 }), Size { width: 0, height: 0 });
    assert_eq!(limits.width(Length::Fixed(7)).resolve(Size { width: 30, height: 20 }).width, 50);
}
