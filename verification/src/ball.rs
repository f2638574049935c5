//! The ball against walls, goals and paddles, with the score and the flag
//! that arms the ball for a bounce.

use crate::field::{hit_wall, wall_rule, EdgeSense, Wall};
use crate::rect::RectSense;
use crate::relation::Relation;
use vstd::prelude::*;

verus! {

/// One of the two players, by the paddle that is theirs.
#[derive(Clone, Copy, Debug, PartialEq, Eq, Structural)]
pub enum Side {
    /// The player at the left, steered by commands from outside.
    Near,
    /// The player at the right, steered by the scripted opponent.
    Far,
}

/// The points of both sides.
#[derive(Clone, Copy, Debug, PartialEq, Eq, Structural)]
pub struct Score {
    pub near: i32,
    pub far: i32,
}

/// How the ball stands to the four edges of the field.
#[derive(Clone, Copy, Debug, PartialEq, Eq, Structural)]
pub struct BoundsSense {
    /// The ball against the top and bottom walls.
    pub edges: EdgeSense,
    /// The ball's horizontal position against zero, the left edge.
    pub left: Relation,
    /// The ball's horizontal position against the field's width, the
    /// right edge.
    pub right: Relation,
}

/// What happens to the ball at the edges of the field, in the order in
/// which the host carries it out.
#[derive(Clone, Copy, Debug, PartialEq, Eq)]
pub struct BoundsPlan {
    /// A wall turns the ball back: the vertical velocity changes sign. At
    /// the top wall the ball is set two units below the top; at the bottom
    /// wall it is set so that its lower edge is one unit inside the field.
    pub wall: Option<Wall>,
    /// A side scores: the ball is put at the centre of the field, half
    /// its width and half its height, and both components of the velocity
    /// change sign.
    pub goal: Option<Side>,
}

/// How the ball stands to the paddles and to the line that arms it again,
/// measured after the walls and goals of this frame are carried out.
#[derive(Clone, Copy, Debug, PartialEq, Eq, Structural)]
pub struct ContactSense {
    /// The ball's position against the near paddle's rectangle.
    pub near: RectSense,
    /// The ball's position against the far paddle's rectangle.
    pub far: RectSense,
    /// The distance of the ball's horizontal position from half the
    /// field's height, against one unit.
    pub line: Relation,
}

/// The side that scores, if any. The far side scores when the ball is
/// strictly left of the field, the near side when it is strictly right of
/// it. Where both hold, the far side scores.
pub open spec fn goal_rule(sense: BoundsSense) -> Option<Side> {
    if sense.left.lt() {
        Some(Side::Far)
    } else if sense.right.gt() {
        Some(Side::Near)
    } else {
        None
    }
}

/// Finds the side that scores.
pub fn goal_side(sense: BoundsSense) -> (goal: Option<Side>)
    ensures
        goal == goal_rule(sense),
{
    if sense.left.is_lt() {
        Some(Side::Far)
    } else if sense.right.is_gt() {
        Some(Side::Near)
    } else {
        None
    }
}

/// Whether the ball bounces off a paddle: it is armed and lies in the
/// rectangle of one of them.
pub open spec fn bounce_rule(armed: bool, sense: ContactSense) -> bool {
    armed && (sense.near.inside() || sense.far.inside())
}

/// Whether the ball is armed after the frame: it was armed and did not
/// bounce, or it is strictly less than one unit from the line.
pub open spec fn arming_rule(armed: bool, sense: ContactSense) -> bool {
    (armed && !bounce_rule(armed, sense)) || sense.line.lt()
}

/// The points that a goal brings a side: one for the side that scored.
pub open spec fn points(goal: Option<Side>, side: Side) -> int {
    if goal == Some(side) {
        1
    } else {
        0
    }
}

/// Keeper of the score and of the arming flag.
#[derive(Clone, Copy, Debug, PartialEq, Eq, Structural)]
pub struct Referee {
    pub score: Score,
    /// Whether the ball bounces off a paddle that it meets. A bounce
    /// clears the flag, so that a ball that stays inside a paddle for
    /// several frames is turned back once.
    pub armed: bool,
}

impl Referee {
    /// A match at its start: no points, the ball armed.
    pub fn new() -> (referee: Referee)
        ensures
            referee.score.near == 0,
            referee.score.far == 0,
            referee.armed,
    {
        Referee { score: Score { near: 0, far: 0 }, armed: true }
    }

    /// Resolves the ball against the edges of the field: a wall turns it
    /// back, and a goal gives the scoring side one point.
    pub fn handle_bounds(&mut self, sense: BoundsSense) -> (plan: BoundsPlan)
        requires
            goal_rule(sense) == Some(Side::Near) ==> old(self).score.near < i32::MAX,
            goal_rule(sense) == Some(Side::Far) ==> old(self).score.far < i32::MAX,
        ensures
            plan.wall == wall_rule(sense.edges),
            plan.goal == goal_rule(sense),
            final(self).score.near == old(self).score.near + points(plan.goal, Side::Near),
            final(self).score.far == old(self).score.far + points(plan.goal, Side::Far),
            final(self).armed == old(self).armed,
    {
        let wall = hit_wall(sense.edges);
        let goal = goal_side(sense);
        match goal {
            Some(Side::Near) => {
                self.score.near = self.score.near + 1;
            },
            Some(Side::Far) => {
                self.score.far = self.score.far + 1;
            },
            None => {},
        }
        BoundsPlan { wall, goal }
    }

    /// Resolves the ball against the paddles. Returns whether it bounces,
    /// on which both components of its velocity change sign.
    pub fn handle_contact(&mut self, sense: ContactSense) -> (bounced: bool)
        ensures
            bounced == bounce_rule(old(self).armed, sense),
            final(self).armed == arming_rule(old(self).armed, sense),
            final(self).score == old(self).score,
    {
        let mut bounced = false;
        if sense.near.contains() && self.armed {
            bounced = true;
            self.armed = false;
        }
        if sense.far.contains() && self.armed {
            bounced = true;
            self.armed = false;
        }
        if !self.armed && sense.line.is_lt() {
            self.armed = true;
        }
        bounced
    }
}

} // verus!
