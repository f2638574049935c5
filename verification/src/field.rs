//! The field's upper and lower edges, which turn back paddles and ball alike.

use crate::relation::Relation;
use vstd::prelude::*;

verus! {

/// One of the two horizontal edges of the field.
#[derive(Clone, Copy, Debug, PartialEq, Eq, Structural)]
pub enum Wall {
    Top,
    Bottom,
}

/// How a piece stands to the two horizontal edges of the field. Heights
/// grow downward from the top of the field.
#[derive(Clone, Copy, Debug, PartialEq, Eq, Structural)]
pub struct EdgeSense {
    /// The piece's vertical position against one unit below the top.
    pub top: Relation,
    /// The piece's vertical position against the field's height less the
    /// piece's own height: the lowest position that keeps it inside.
    pub bottom: Relation,
}

/// The wall that a piece has run into, if any. A piece is at the top wall
/// when it is strictly less than one unit below the top, and at the bottom
/// wall when its lower edge is strictly past the field's height. Where
/// both hold, the top wall counts.
pub open spec fn wall_rule(sense: EdgeSense) -> Option<Wall> {
    if sense.top.lt() {
        Some(Wall::Top)
    } else if sense.bottom.gt() {
        Some(Wall::Bottom)
    } else {
        None
    }
}

/// Finds the wall that a piece has run into.
pub fn hit_wall(sense: EdgeSense) -> (wall: Option<Wall>)
    ensures
        wall == wall_rule(sense),
{
    if sense.top.is_lt() {
        Some(Wall::Top)
    } else if sense.bottom.is_gt() {
        Some(Wall::Bottom)
    } else {
        None
    }
}

} // verus!
