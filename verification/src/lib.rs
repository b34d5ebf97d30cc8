//! An icon label for retained-mode user interfaces: a piece of text that is
//! drawn with an icon font unless another font is chosen, together with the
//! integer layout geometry that it is measured and painted in.

pub mod alignment;
pub mod geometry;
pub mod hash;
pub mod icon_text;
pub mod laws;
pub mod layout;
pub mod length;
pub mod renderer;

pub use alignment::{Horizontal, Vertical};
pub use geometry::{Point, Rectangle, Size};
pub use hash::{LayoutKey, LayoutKeyView, END_OF_CONTENT, ICON_TEXT_MARKER};
pub use icon_text::{anchor, IconText, IconTextView};
pub use layout::{Layout, Limits, Node};
pub use length::Length;
pub use renderer::{Measure, Renderer, Style, Text, TextView};
