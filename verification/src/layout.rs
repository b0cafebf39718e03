//! Sizing intents, layout constraints, and the laid-out node tree.

use vstd::prelude::*;
use crate::geometry::Rectangle;

verus! {

/// A widget's sizing intent along one axis, consumed by the layout pass.
#[derive(Clone, Copy, Debug, PartialEq, Eq, Structural)]
pub enum Length {
    /// Expand to the full extent the constraints allow.
    Fill,
    /// Take exactly the intrinsic size of the content.
    Shrink,
    /// Take exactly the given number of layout units.
    Units(u16),
}

/// The constraints a layout pass hands to a widget: the largest extent the
/// produced node may fill. Constraints come from the windowing system and fit
/// in 32 bits, so every box derived from them fits comfortably in the 64-bit
/// coordinate space.
#[derive(Clone, Copy, Debug, PartialEq, Eq, Structural)]
pub struct Limits {
    pub max_width: u32,
    pub max_height: u32,
}

/// A positioned, sized box produced by a layout pass, with its ordered
/// children.
pub struct Node {
    pub bounds: Rectangle,
    pub children: Vec<Node>,
}

impl Node {
    /// A childless box.
    pub fn leaf(bounds: Rectangle) -> (r: Node)
        ensures
            r.bounds == bounds,
            r.children@.len() == 0,
    {
        Node { bounds, children: Vec::new() }
    }
}

} // verus!
