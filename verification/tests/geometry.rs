use icon_text::{anchor, Horizontal, Layout, Node, Point, Rectangle, Size, Vertical};

fn bounds() -> Rectangle {
    Rectangle { x: 10, y: 20, width: 100, height: 50 }
}

#[test]
fn anchor_left_top_is_the_corner() {
    assert_eq!(anchor(&bounds(), Horizontal::Left, Vertical::Top), Point { x: 10, y: 20 });
}

#[test]
fn anchor_center_center_is_the_middle() {
    assert_eq!(anchor(&bounds(), Horizontal::Center, Vertical::Center), Point { x: 60, y: 45 });
}

#[test]
fn anchor_right_bottom_is_the_far_corner() {
    assert_eq!(anchor(&bounds(), Horizontal::Right, Vertical::Bottom), Point { x: 110, y: 70 });
}

#[test]
fn anchor_axes_are_independent() {
    assert_eq!(anchor(&bounds(), Horizontal::Left, Vertical::Bottom), Point { x: 10, y: 70 });
    assert_eq!(anchor(&bounds(), Horizontal::Right, Vertical::Center), Point { x: 110, y: 45 });
    assert_eq!(anchor(&bounds(), Horizontal::Center, Vertical::Top), Point { x: 60, y: 20 });
}

#[test]
fn anchor_of_an_empty_box_is_its_corner() {
    let empty = Rectangle { x: -3, y: 4, width: 0, height: 0 };
    assert_eq!(anchor(&empty, Horizontal::Center, Vertical::Center), Point { x: -3, y: 4 });
    assert_eq!(anchor(&empty, Horizontal::Right, Vertical::Bottom), Point { x: -3, y: 4 });
}

#[test]
fn center_of_an_odd_extent_rounds_down() {
    let odd = Rectangle { x: 0, y: -10, width: 5, height: 7 };
    assert_eq!(odd.center_x(), 2);
    assert_eq!(odd.center_y(), -7);
}

#[test]
fn anchor_reaches_past_the_32_bit_range() {
    let wide = Rectangle { x: 2147483647, y: -2147483648, width: 4294967295, height: 4294967295 };
    assert_eq!(
        anchor(&wide, Horizontal::Right, Vertical::Bottom),
        Point { x: 6442450942, y: 2147483647 }
    );
    assert_eq!(
        anchor(&wide, Horizontal::Center, Vertical::Center),
        Point { x: 4294967294, y: -1 }
    );
}

#[test]
fn layout_at_the_origin_has_the_size_of_its_node() {
    let node = Node::new(Size { width: 100, height: 50 });
    let layout = Layout::new(&node);
    assert_eq!(layout.bounds(), Rectangle { x: 0, y: 0, width: 100, height: 50 });
    assert_eq!(layout.position(), Point { x: 0, y: 0 });
}

#[test]
fn layout_with_offset_moves_the_corner() {
    let node = Node::new(Size { width: 100, height: 50 });
    let layout = Layout::with_offset(10, 20, &node);
    assert_eq!(layout.bounds(), bounds());
    assert_eq!(layout.position(), Point { x: 10, y: 20 });
}

#[test]
fn node_of_a_leaf_has_no_children() {
    let node = Node::new(Size { width: 3, height: 4 });
    assert_eq!(node.size, Size { width: 3, height: 4 });
    assert!(node.children.is_empty());
}

#[test]
fn unbounded_size_is_the_largest_extent() {
    assert_eq!(Size::unbounded(), Size { width: u32::MAX, height: u32::MAX });
}
