//! The point-in-rectangle test.

use crate::relation::Relation;
use vstd::prelude::*;

verus! {

/// How a point stands to the four edges of an axis-aligned rectangle that
/// is given by its top-left corner and its size.
#[derive(Clone, Copy, Debug, PartialEq, Eq, Structural)]
pub struct RectSense {
    /// The point's horizontal position against the rectangle's left edge.
    pub left: Relation,
    /// The point's horizontal position against the rectangle's right edge:
    /// the left edge plus the width.
    pub right: Relation,
    /// The point's vertical position against the rectangle's top edge.
    pub top: Relation,
    /// The point's vertical position against the rectangle's bottom edge:
    /// the top edge plus the height.
    pub bottom: Relation,
}

impl RectSense {
    /// The point lies in the rectangle. The near edges, left and top,
    /// belong to the rectangle; the far edges, right and bottom, do not.
    pub open spec fn inside(self) -> bool {
        &&& self.left.ge()
        &&& self.right.lt()
        &&& self.top.ge()
        &&& self.bottom.lt()
    }

    /// Whether the point lies in the rectangle.
    pub fn contains(self) -> (yes: bool)
        ensures
            yes == self.inside(),
    {
        self.left.is_ge() && self.right.is_lt() && self.top.is_ge() && self.bottom.is_lt()
    }
}

} // verus!
