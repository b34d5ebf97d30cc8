//! Space limits, layout nodes and resolved layouts.

use vstd::prelude::*;
use crate::geometry::{Point, Rectangle, Size};
use crate::length::Length;

verus! {

/// The smaller of two extents.
pub open spec fn lesser(a: u32, b: u32) -> u32 {
    if a <= b {
        a
    } else {
        b
    }
}

/// The larger of two extents.
pub open spec fn greater(a: u32, b: u32) -> u32 {
    if a >= b {
        a
    } else {
        b
    }
}

fn lesser_of(a: u32, b: u32) -> (r: u32)
    ensures
        r == lesser(a, b),
{
    if a <= b {
        a
    } else {
        b
    }
}

fn greater_of(a: u32, b: u32) -> (r: u32)
    ensures
        r == greater(a, b),
{
    if a >= b {
        a
    } else {
        b
    }
}

/// What one axis of a set of limits becomes under a sizing intent, as
/// `(min, max, fill)`.
///
/// `Shrink` lowers the fill extent to the minimum. `Fill` and `FillPortion`
/// cap the fill extent at the maximum. `Fixed` forces all three to the
/// requested extent, itself first capped at the maximum and then raised to
/// the minimum.
pub open spec fn constrain(min: u32, max: u32, fill: u32, length: Length) -> (u32, u32, u32) {
    match length {
        Length::Shrink => (min, max, min),
        Length::Fill => (min, max, lesser(fill, max)),
        Length::FillPortion(_) => (min, max, lesser(fill, max)),
        Length::Fixed(units) => {
            let extent = greater(lesser(units as u32, max), min);
            (extent, extent, extent)
        },
    }
}

/// A set of size constraints for one element.
#[derive(Clone, Copy, Debug, PartialEq, Eq, Structural)]
pub struct Limits {
    /// The least size the element may take.
    pub min: Size,
    /// The greatest size the element may take.
    pub max: Size,
    /// The size the element takes when its content asks for less.
    pub fill: Size,
}

impl Limits {
    /// Limits between `min` and `max` that do not yet force any size on
    /// content that asks for less.
    pub open spec fn spec_new(min: Size, max: Size) -> Limits {
        Limits { min, max, fill: Size::spec_unbounded() }
    }

    /// These limits with a sizing intent applied to the horizontal axis.
    pub open spec fn spec_width(self, width: Length) -> Limits {
        let (min, max, fill) = constrain(self.min.width, self.max.width, self.fill.width, width);
        Limits {
            min: Size { width: min, height: self.min.height },
            max: Size { width: max, height: self.max.height },
            fill: Size { width: fill, height: self.fill.height },
        }
    }

    /// These limits with a sizing intent applied to the vertical axis.
    pub open spec fn spec_height(self, height: Length) -> Limits {
        let (min, max, fill) = constrain(
            self.min.height,
            self.max.height,
            self.fill.height,
            height,
        );
        Limits {
            min: Size { width: self.min.width, height: min },
            max: Size { width: self.max.width, height: max },
            fill: Size { width: self.fill.width, height: fill },
        }
    }

    /// The size that content of the given intrinsic size takes under these
    /// limits: on each axis the intrinsic extent, capped at the maximum and
    /// then raised to the fill extent.
    pub open spec fn spec_resolve(self, intrinsic: Size) -> Size {
        Size {
            width: greater(lesser(intrinsic.width, self.max.width), self.fill.width),
            height: greater(lesser(intrinsic.height, self.max.height), self.fill.height),
        }
    }

    /// Creates limits with the given minimum and maximum size.
    pub fn new(min: Size, max: Size) -> (limits: Limits)
        ensures
            limits == Limits::spec_new(min, max),
    {
        Limits { min, max, fill: Size::unbounded() }
    }

    /// The maximum size of these limits.
    pub fn max(&self) -> (size: Size)
        ensures
            size == self.max,
    {
        self.max
    }

    /// Applies a sizing intent to the horizontal axis.
    pub fn width(self, width: Length) -> (limits: Limits)
        ensures
            limits == self.spec_width(width),
    {
        let mut limits = self;
        match width {
            Length::Shrink => {
                limits.fill.width = self.min.width;
            },
            Length::Fill | Length::FillPortion(_) => {
                limits.fill.width = lesser_of(self.fill.width, self.max.width);
            },
            Length::Fixed(units) => {
                let extent = greater_of(lesser_of(units as u32, self.max.width), self.min.width);
                limits.min.width = extent;
                limits.max.width = extent;
                limits.fill.width = extent;
            },
        }
        limits
    }

    /// Applies a sizing intent to the vertical axis.
    pub fn height(self, height: Length) -> (limits: Limits)
        ensures
            limits == self.spec_height(height),
    {
        let mut limits = self;
        match height {
            Length::Shrink => {
                limits.fill.height = self.min.height;
            },
            Length::Fill | Length::FillPortion(_) => {
                limits.fill.height = lesser_of(self.fill.height, self.max.height);
            },
            Length::Fixed(units) => {
                let extent = greater_of(lesser_of(units as u32, self.max.height), self.min.height);
                limits.min.height = extent;
                limits.max.height = extent;
                limits.fill.height = extent;
            },
        }
        limits
    }

    /// Computes the size that content of the given intrinsic size takes under
    /// these limits.
    pub fn resolve(&self, intrinsic: Size) -> (size: Size)
        ensures
            size == self.spec_resolve(intrinsic),
    {
        Size {
            width: greater_of(lesser_of(intrinsic.width, self.max.width), self.fill.width),
            height: greater_of(lesser_of(intrinsic.height, self.max.height), self.fill.height),
        }
    }
}

/// The resolved size of an element, and the nodes of its children.
#[derive(Debug, PartialEq, Eq)]
pub struct Node {
    /// The size that layout gave the element.
    pub size: Size,
    /// The nodes of the element's children, in order.
    pub children: Vec<Node>,
}

impl Node {
    /// Creates the node of an element without children.
    pub fn new(size: Size) -> (node: Node)
        ensures
            node.size == size,
            node.children@.len() == 0,
    {
        Node { size, children: Vec::new() }
    }
}

/// A node placed on the screen.
#[derive(Clone, Copy, Debug)]
pub struct Layout<'a> {
    x: i32,
    y: i32,
    node: &'a Node,
}

impl<'a> Layout<'a> {
    /// The box that the node occupies on the screen.
    pub closed spec fn spec_bounds(&self) -> Rectangle {
        Rectangle {
            x: self.x as i64,
            y: self.y as i64,
            width: self.node.size.width,
            height: self.node.size.height,
        }
    }

    /// Places a node with its top-left corner at the origin.
    pub fn new(node: &'a Node) -> (layout: Layout<'a>)
        ensures
            layout.spec_bounds() == (Rectangle {
                x: 0,
                y: 0,
                width: node.size.width,
                height: node.size.height,
            }),
    {
        Layout { x: 0, y: 0, node }
    }

    /// Places a node with its top-left corner at `(x, y)`.
    pub fn with_offset(x: i32, y: i32, node: &'a Node) -> (layout: Layout<'a>)
        ensures
            layout.spec_bounds() == (Rectangle {
                x: x as i64,
                y: y as i64,
                width: node.size.width,
                height: node.size.height,
            }),
    {
        Layout { x, y, node }
    }

    /// The top-left corner of the node on the screen.
    pub fn position(&self) -> (point: Point)
        ensures
            point.x == self.spec_bounds().x,
            point.y == self.spec_bounds().y,
    {
        Point { x: self.x as i64, y: self.y as i64 }
    }

    /// The box that the node occupies on the screen.
    #[verifier::when_used_as_spec(spec_bounds)]
    pub fn bounds(&self) -> (bounds: Rectangle)
        ensures
            bounds == self.spec_bounds(),
            bounds.fits(),
    {
        Rectangle {
            x: self.x as i64,
            y: self.y as i64,
            width: self.node.size.width,
            height: self.node.size.height,
        }
    }
}

} // verus!
